//! API errors, their stable codes and HTTP statuses.

use vstd::prelude::*;

use crate::text::{append_chars, chars_of, contains_lit, contains_seq, string_of};

verus! {

/// Errors returned by the API. Qobuz and database failures carry the text of
/// the underlying error; a Qobuz failure records whether it was an
/// authentication failure, the one distinction the codes make.
#[derive(Debug, Clone)]
pub enum ApiError {
    Config(String),
    Message(String),
    Qobuz { authentication: bool, message: String },
    Db(String),
}

pub open spec fn has(msg: Seq<char>, lit: &str) -> bool {
    contains_seq(msg, lit@)
}

/// Stable error code of an error (`ApiError::code`).
pub open spec fn code_spec(e: ApiError) -> Seq<char> {
    match e {
        ApiError::Config(_) => "CONFIG_ERROR"@,
        ApiError::Message(m) => {
            let msg = m@;
            if has(msg, "MASTER_KEY") {
                "MASTER_KEY_REQUIRED"@
            } else if has(msg, "credentials") || has(msg, "not connected") {
                "QOBUZ_NOT_CONFIGURED"@
            } else if has(msg, "JOB_ALREADY_RUNNING") {
                "JOB_ALREADY_RUNNING"@
            } else if has(msg, "SCAN_ALREADY_RUNNING") {
                "SCAN_ALREADY_RUNNING"@
            } else if has(msg, "not found") {
                "NOT_FOUND"@
            } else if has(msg, "cannot cancel") {
                "JOB_NOT_CANCELLABLE"@
            } else if has(msg, "cannot purge") {
                "JOB_NOT_PURGEABLE"@
            } else if has(msg, "TORRENT_SESSION_BUSY") {
                "TORRENT_SESSION_BUSY"@
            } else if has(msg, "INVALID_CURSOR") {
                "INVALID_CURSOR"@
            } else if has(msg, "PROVIDER_UNAVAILABLE") {
                "PROVIDER_UNAVAILABLE"@
            } else if has(msg, "integration not found") {
                "NOT_FOUND"@
            } else if has(msg, "PAYLOAD_TOO_LARGE") {
                "PAYLOAD_TOO_LARGE"@
            } else {
                "BAD_REQUEST"@
            }
        },
        ApiError::Qobuz { authentication, .. } => if authentication {
            "QOBUZ_AUTH_FAILED"@
        } else {
            "QOBUZ_UNAVAILABLE"@
        },
        ApiError::Db(_) => "DATABASE_ERROR"@,
    }
}

/// HTTP status of an error (`ApiError::status`).
pub open spec fn status_spec(e: ApiError) -> u16 {
    match e {
        ApiError::Config(_) => 500,
        ApiError::Message(m) => {
            let msg = m@;
            if has(msg, "MASTER_KEY") {
                400
            } else if has(msg, "credentials") || has(msg, "not connected") {
                503
            } else if has(msg, "JOB_ALREADY_RUNNING") {
                409
            } else if has(msg, "SCAN_ALREADY_RUNNING") {
                409
            } else if has(msg, "not found") {
                404
            } else if has(msg, "cannot cancel") {
                409
            } else if has(msg, "cannot purge") {
                409
            } else if has(msg, "TORRENT_SESSION_BUSY") {
                409
            } else if has(msg, "PROVIDER_UNAVAILABLE") {
                502
            } else if has(msg, "PAYLOAD_TOO_LARGE") {
                413
            } else {
                400
            }
        },
        ApiError::Qobuz { authentication, .. } => if authentication {
            401
        } else {
            502
        },
        ApiError::Db(_) => 500,
    }
}

/// The error's display text.
pub open spec fn message_spec(e: ApiError) -> Seq<char> {
    match e {
        ApiError::Config(m) => "configuration error: "@ + m@,
        ApiError::Message(m) => m@,
        ApiError::Qobuz { message, .. } => "qobuz error: "@ + message@,
        ApiError::Db(m) => "database error: "@ + m@,
    }
}

pub open spec fn is_message(e: ApiError, text: Seq<char>) -> bool {
    e is Message && e->Message_0@ == text
}

fn prefixed(prefix: &str, rest: &str) -> (r: String)
    ensures
        r@ == prefix@ + rest@,
{
    let mut v = chars_of(prefix);
    let w = chars_of(rest);
    append_chars(&mut v, w.as_slice());
    string_of(v.as_slice())
}

impl ApiError {
    /// A client error carrying `message`.
    pub fn bad_request(message: &str) -> (e: ApiError)
        ensures
            is_message(e, message@),
    {
        ApiError::Message(message.to_owned())
    }

    /// A client error for an unusable pagination cursor.
    pub fn invalid_cursor(message: &str) -> (e: ApiError)
        ensures
            is_message(e, "INVALID_CURSOR: "@ + message@),
    {
        ApiError::Message(prefixed("INVALID_CURSOR: ", message))
    }

    /// A client error for an oversized payload.
    pub fn payload_too_large(message: &str) -> (e: ApiError)
        ensures
            is_message(e, "PAYLOAD_TOO_LARGE: "@ + message@),
    {
        ApiError::Message(prefixed("PAYLOAD_TOO_LARGE: ", message))
    }

    pub fn code(&self) -> (r: &'static str)
        ensures
            r@ == code_spec(*self),
    {
        match self {
            ApiError::Config(_) => "CONFIG_ERROR",
            ApiError::Message(m) => {
                let msg = chars_of(m.as_str());
                let v = msg.as_slice();
                if contains_lit(v, "MASTER_KEY") {
                    "MASTER_KEY_REQUIRED"
                } else if contains_lit(v, "credentials") || contains_lit(v, "not connected") {
                    "QOBUZ_NOT_CONFIGURED"
                } else if contains_lit(v, "JOB_ALREADY_RUNNING") {
                    "JOB_ALREADY_RUNNING"
                } else if contains_lit(v, "SCAN_ALREADY_RUNNING") {
                    "SCAN_ALREADY_RUNNING"
                } else if contains_lit(v, "not found") {
                    "NOT_FOUND"
                } else if contains_lit(v, "cannot cancel") {
                    "JOB_NOT_CANCELLABLE"
                } else if contains_lit(v, "cannot purge") {
                    "JOB_NOT_PURGEABLE"
                } else if contains_lit(v, "TORRENT_SESSION_BUSY") {
                    "TORRENT_SESSION_BUSY"
                } else if contains_lit(v, "INVALID_CURSOR") {
                    "INVALID_CURSOR"
                } else if contains_lit(v, "PROVIDER_UNAVAILABLE") {
                    "PROVIDER_UNAVAILABLE"
                } else if contains_lit(v, "integration not found") {
                    "NOT_FOUND"
                } else if contains_lit(v, "PAYLOAD_TOO_LARGE") {
                    "PAYLOAD_TOO_LARGE"
                } else {
                    "BAD_REQUEST"
                }
            },
            ApiError::Qobuz { authentication, .. } => {
                if *authentication {
                    "QOBUZ_AUTH_FAILED"
                } else {
                    "QOBUZ_UNAVAILABLE"
                }
            },
            ApiError::Db(_) => "DATABASE_ERROR",
        }
    }

    pub fn status(&self) -> (r: u16)
        ensures
            r == status_spec(*self),
    {
        match self {
            ApiError::Config(_) => 500,
            ApiError::Message(m) => {
                let msg = chars_of(m.as_str());
                let v = msg.as_slice();
                if contains_lit(v, "MASTER_KEY") {
                    400
                } else if contains_lit(v, "credentials") || contains_lit(v, "not connected") {
                    503
                } else if contains_lit(v, "JOB_ALREADY_RUNNING") {
                    409
                } else if contains_lit(v, "SCAN_ALREADY_RUNNING") {
                    409
                } else if contains_lit(v, "not found") {
                    404
                } else if contains_lit(v, "cannot cancel") {
                    409
                } else if contains_lit(v, "cannot purge") {
                    409
                } else if contains_lit(v, "TORRENT_SESSION_BUSY") {
                    409
                } else if contains_lit(v, "PROVIDER_UNAVAILABLE") {
                    502
                } else if contains_lit(v, "PAYLOAD_TOO_LARGE") {
                    413
                } else {
                    400
                }
            },
            ApiError::Qobuz { authentication, .. } => {
                if *authentication {
                    401
                } else {
                    502
                }
            },
            ApiError::Db(_) => 500,
        }
    }

    /// The error's display text (`to_string()`).
    pub fn message(&self) -> (r: String)
        ensures
            r@ == message_spec(*self),
    {
        match self {
            ApiError::Config(m) => prefixed("configuration error: ", m.as_str()),
            ApiError::Message(m) => m.clone(),
            ApiError::Qobuz { message, .. } => prefixed("qobuz error: ", message.as_str()),
            ApiError::Db(m) => prefixed("database error: ", m.as_str()),
        }
    }
}

} // verus!
