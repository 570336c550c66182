//! Qobuz credentials of the active account: which stored setting names the
//! account, and how its session token is recovered.

use vstd::prelude::*;

use crate::crypto::{decrypt_spec, MasterKey};
use crate::db::qobuz_accounts::QobuzAccountRecord;
use crate::error::{is_message, ApiError};
use crate::text::{append_chars, chars_of, parse_i64, parse_i64_spec, starts_with, str_to_string, string_of};

verus! {

/// The session a Qobuz client is built from.
#[derive(Debug, Clone)]
pub struct QobuzCredentials {
    pub user_id: u64,
    pub auth_token: String,
}

/// The text `<i64 as FromStr>` gives for its error on `s` (`Display` of
/// `ParseIntError`); empty when `s` parses. Nothing is stated of the text.
#[verifier::external_body]
fn i64_parse_error_text(s: &str) -> (r: String) {
    match s.parse::<i64>() {
        Err(e) => e.to_string(),
        Ok(_) => String::new(),
    }
}

/// The id of the active account, from the stored setting.
pub fn active_account_id(value: &str) -> (r: Result<i64, ApiError>)
    ensures
        parse_i64_spec(value@) matches Some(n) ==> r == Ok::<i64, ApiError>(n),
        parse_i64_spec(value@) is None ==> (r matches Err(ApiError::Config(m)) && starts_with(
            m@,
            "invalid qobuz.active_account_id: "@,
        )),
{
    let v = chars_of(value);
    match parse_i64(v.as_slice()) {
        Some(n) => Ok(n),
        None => {
            let mut m = chars_of("invalid qobuz.active_account_id: ");
            let detail = chars_of(i64_parse_error_text(value).as_str());
            let ghost prefix = m@;
            append_chars(&mut m, detail.as_slice());
            assert(m@.subrange(0, prefix.len() as int) =~= prefix);
            Err(ApiError::Config(string_of(m.as_slice())))
        },
    }
}

/// The credentials of a stored account: its session token decrypted with
/// the master key, which Qobuz accounts require.
pub fn credentials_from_account(row: &QobuzAccountRecord, master: Option<&MasterKey>) -> (r: Result<
    QobuzCredentials,
    ApiError,
>)
    ensures
        master is None ==> (r matches Err(e) && is_message(
            e,
            "EUTERPE_MASTER_KEY is required for Qobuz accounts"@,
        )),
        master matches Some(k) ==> match decrypt_spec(k.key(), row.uat_encrypted@) {
            Ok(t) => r matches Ok(c) && c.auth_token@ == t && c.user_id == row.qobuz_user_id as u64,
            Err(m) => r matches Err(ApiError::Message(x)) && x@ == m,
        },
{
    let key = match master {
        Some(k) => k,
        None => {
            return Err(ApiError::Message(str_to_string("EUTERPE_MASTER_KEY is required for Qobuz accounts")));
        },
    };
    match key.decrypt(row.uat_encrypted.as_str()) {
        Ok(auth_token) => Ok(QobuzCredentials { user_id: row.qobuz_user_id as u64, auth_token }),
        Err(e) => Err(e),
    }
}

/// The membership label shown for a connected client.
pub fn membership_label(authenticated: bool) -> (r: String)
    ensures
        authenticated ==> r@ == "Qobuz"@,
        !authenticated ==> r@ == "Unknown"@,
{
    if authenticated {
        str_to_string("Qobuz")
    } else {
        str_to_string("Unknown")
    }
}

} // verus!
