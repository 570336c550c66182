//! Request admission and access logging: who may call the admin API, and
//! how a response is logged.

use vstd::prelude::*;

use crate::crypto::{base64_std_decode, base64_std_decoding, string_from_utf8};
use crate::text::{
    chars_of, ends_with, ends_with_lit, slice_of, starts_with, starts_with_lit, str_is, string_of,
};

verus! {

/// The (name, value) pairs that `form_urlencoded::parse` reads from a query
/// string, names and values percent-decoded and `+` read as a space.
pub uninterp spec fn form_urlencoded_pairs(query: Seq<char>) -> Seq<(Seq<char>, Seq<char>)>;

pub open spec fn pair_texts(v: Seq<(String, String)>) -> Seq<(Seq<char>, Seq<char>)> {
    v.map_values(|p: (String, String)| (p.0@, p.1@))
}

/// `url::form_urlencoded::parse` of the query's bytes, each pair owned.
#[verifier::external_body]
fn form_pairs(query: &str) -> (r: Vec<(String, String)>)
    ensures
        pair_texts(r@) == form_urlencoded_pairs(query@),
{
    url::form_urlencoded::parse(query.as_bytes()).into_owned().collect()
}

/// How loud an access-log line is.
#[derive(Debug, Clone, Copy, PartialEq, Eq, Structural)]
pub enum LogLevel {
    Error,
    Debug,
}

/// An access-log line: level, text, and the fields it carries; `code` and
/// `message` are the error body's, where an error response had one.
#[derive(Debug, Clone)]
pub struct HttpLogLine {
    pub level: LogLevel,
    pub text: &'static str,
    pub status: u16,
    pub latency_ms: u64,
    pub code: Option<String>,
    pub message: Option<String>,
}

/// The text of the log line for a status: server and client errors are
/// told apart; everything else is a plain response.
pub open spec fn log_text_spec(status: u16) -> Seq<char> {
    if 500 <= status <= 599 {
        "http response: server error"@
    } else if 400 <= status <= 499 {
        "http response: client error"@
    } else {
        "http response"@
    }
}

/// 4xx and 5xx responses are logged as errors, the rest at debug level.
pub open spec fn log_level_spec(status: u16) -> LogLevel {
    if 400 <= status <= 599 {
        LogLevel::Error
    } else {
        LogLevel::Debug
    }
}

pub open spec fn log_line_matches(
    r: HttpLogLine,
    status: u16,
    latency_ms: u64,
    error: Option<(Seq<char>, Seq<char>)>,
) -> bool {
    &&& r.level == log_level_spec(status)
    &&& r.text@ == log_text_spec(status)
    &&& r.status == status
    &&& r.latency_ms == latency_ms
    &&& match (r.code, r.message) {
        (Some(c), Some(m)) => 400 <= status <= 599 && error == Some((c@, m@)),
        (None, None) => !(400 <= status <= 599) || error is None,
        _ => false,
    }
}

/// The access-log line of a plain response.
pub fn log_http_success(status: u16, latency_ms: u64) -> (r: HttpLogLine)
    ensures
        r.level == LogLevel::Debug,
        r.text@ == "http response"@,
        r.status == status,
        r.latency_ms == latency_ms,
        r.code is None,
        r.message is None,
{
    HttpLogLine { level: LogLevel::Debug, text: "http response", status, latency_ms, code: None, message: None }
}

/// The access-log line of a response; `error` is the code and message of
/// its error body, where one was read.
pub fn log_http_response(status: u16, latency_ms: u64, error: Option<(&str, &str)>) -> (r:
    HttpLogLine)
    ensures
        log_line_matches(
            r,
            status,
            latency_ms,
            match error {
                Some((c, m)) => Some((c@, m@)),
                None => None,
            },
        ),
{
    let fields = match error {
        Some((c, m)) => (Some(c.to_string()), Some(m.to_string())),
        None => (None, None),
    };
    if 500 <= status && status <= 599 {
        HttpLogLine {
            level: LogLevel::Error,
            text: "http response: server error",
            status,
            latency_ms,
            code: fields.0,
            message: fields.1,
        }
    } else if 400 <= status && status <= 499 {
        HttpLogLine {
            level: LogLevel::Error,
            text: "http response: client error",
            status,
            latency_ms,
            code: fields.0,
            message: fields.1,
        }
    } else {
        log_http_success(status, latency_ms)
    }
}

/// Paths used by browser APIs that cannot set `Authorization` (an event
/// source, an audio element): streams and the event feed.
pub open spec fn query_token_path(path: Seq<char>) -> bool {
    ends_with(path, "/stream"@) || path == "/api/v1/events"@
}

pub fn path_allows_query_token(path: &str) -> (r: bool)
    ensures
        r == query_token_path(path@),
{
    let v = chars_of(path);
    ends_with_lit(v.as_slice(), "/stream") || str_is(path, "/api/v1/events")
}

/// Pair `i` of `ps` is `access_token` with the expected value.
pub open spec fn token_pair_at(ps: Seq<(Seq<char>, Seq<char>)>, i: int, expected: Seq<char>) -> bool {
    0 <= i < ps.len() && ps[i].0 == "access_token"@ && ps[i].1 == expected
}

/// Some pair is `access_token` with the expected value.
pub open spec fn has_access_token(ps: Seq<(Seq<char>, Seq<char>)>, expected: Seq<char>) -> bool {
    exists|i: int| #[trigger] token_pair_at(ps, i, expected)
}

/// Some pair of the query is `access_token` with the expected value, both
/// compared after decoding.
pub open spec fn query_token_spec(query: Option<Seq<char>>, expected: Seq<char>) -> bool {
    match query {
        None => false,
        Some(q) => has_access_token(form_urlencoded_pairs(q), expected),
    }
}

pub fn query_access_token_matches(query: Option<&str>, expected: &str) -> (r: bool)
    ensures
        r == query_token_spec(
            match query {
                Some(q) => Some(q@),
                None => None,
            },
            expected@,
        ),
{
    let q = match query {
        Some(q) => q,
        None => {
            return false;
        },
    };
    let pairs = form_pairs(q);
    let ghost ps = form_urlencoded_pairs(q@);
    let mut i: usize = 0;
    while i < pairs.len()
        invariant
            i <= pairs.len(),
            query == Some(q),
            pair_texts(pairs@) == ps,
            ps == form_urlencoded_pairs(q@),
            forall|j: int| 0 <= j < i ==> !#[trigger] token_pair_at(ps, j, expected@),
        decreases pairs.len() - i,
    {
        assert(ps[i as int] == (pairs@[i as int].0@, pairs@[i as int].1@));
        if str_is(pairs[i].0.as_str(), "access_token") && str_is(pairs[i].1.as_str(), expected) {
            assert(token_pair_at(ps, i as int, expected@));
            return true;
        }
        i += 1;
    }
    false
}

/// An `Authorization` header that admits the caller: `Bearer` with the
/// password, or `Basic` whose decoded credentials are `admin:` and the
/// password, or the password alone.
pub open spec fn check_auth_spec(header: Seq<char>, expected: Seq<char>) -> bool {
    if starts_with(header, "Bearer "@) {
        header.skip(7) == expected
    } else if starts_with(header, "Basic "@) {
        match base64_std_decoding(header.skip(6)) {
            Ok(b) => vstd::utf8::valid_utf8(b) && (vstd::utf8::decode_utf8(b) == "admin:"@
                + expected || vstd::utf8::decode_utf8(b) == expected),
            Err(_) => false,
        }
    } else {
        false
    }
}

pub fn check_auth(header: &str, expected: &str) -> (r: bool)
    ensures
        r == check_auth_spec(header@, expected@),
{
    proof {
        reveal_strlit("Bearer ");
        reveal_strlit("Basic ");
    }
    let v = chars_of(header);
    if starts_with_lit(v.as_slice(), "Bearer ") {
        let token = slice_of(v.as_slice(), 7, v.len());
        assert(token@ =~= header@.skip(7));
        return str_is(string_of(token.as_slice()).as_str(), expected);
    }
    if starts_with_lit(v.as_slice(), "Basic ") {
        let encoded = string_of(slice_of(v.as_slice(), 6, v.len()).as_slice());
        assert(encoded@ =~= header@.skip(6));
        match base64_std_decode(encoded.as_str()) {
            Ok(decoded) => match string_from_utf8(decoded) {
                Ok(s) => {
                    let mut admin = chars_of("admin:");
                    let e = chars_of(expected);
                    crate::text::append_chars(&mut admin, e.as_slice());
                    let with_user = string_of(admin.as_slice());
                    return str_is(s.as_str(), with_user.as_str()) || str_is(s.as_str(), expected);
                },
                Err(_) => {
                    return false;
                },
            },
            Err(_) => {
                return false;
            },
        }
    }
    false
}

/// Whether a request proves the admin password: by its `Authorization`
/// header, or, on the paths that allow it, by an `access_token` query
/// parameter (`check_request_auth` over the request's parts).
pub open spec fn request_auth_spec(
    header: Option<Seq<char>>,
    path: Seq<char>,
    query: Option<Seq<char>>,
    expected: Seq<char>,
) -> bool {
    (header matches Some(h) && check_auth_spec(h, expected)) || (query_token_path(path)
        && query_token_spec(query, expected))
}

pub fn check_request_auth(
    header: Option<&str>,
    path: &str,
    query: Option<&str>,
    expected: &str,
) -> (r: bool)
    ensures
        r == request_auth_spec(
            match header {
                Some(h) => Some(h@),
                None => None,
            },
            path@,
            match query {
                Some(q) => Some(q@),
                None => None,
            },
            expected@,
        ),
{
    if let Some(h) = header {
        if check_auth(h, expected) {
            return true;
        }
    }
    path_allows_query_token(path) && query_access_token_matches(query, expected)
}

/// Whether the admin API lets a request through (`admin_auth`): always
/// when no admin password is configured, else when the request proves it.
pub fn admin_auth(
    admin_password: Option<&str>,
    header: Option<&str>,
    path: &str,
    query: Option<&str>,
) -> (r: bool)
    ensures
        r == match admin_password {
            None => true,
            Some(p) => request_auth_spec(
                match header {
                    Some(h) => Some(h@),
                    None => None,
                },
                path@,
                match query {
                    Some(q) => Some(q@),
                    None => None,
                },
                p@,
            ),
        },
{
    match admin_password {
        None => true,
        Some(expected) => check_request_auth(header, path, query, expected),
    }
}

/// The code and message of the error body a refused request gets.
pub fn unauthorized_error() -> (r: (&'static str, &'static str))
    ensures
        r.0@ == "UNAUTHORIZED"@,
        r.1@ == "admin authentication required"@,
{
    ("UNAUTHORIZED", "admin authentication required")
}

} // verus!
