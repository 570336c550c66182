//! Text encodings the server hands to outside crates: JSON string literals
//! (serde_json), base64 (base64) and hexadecimal (hex).

use vstd::prelude::*;

use base64::Engine;

verus! {

/// The JSON string literal that `serde_json::to_string` writes for `s`:
/// the text between double quotes, with the characters JSON requires escaped.
pub uninterp spec fn json_string_literal(s: Seq<char>) -> Seq<char>;

/// The URL-safe base64 text, without padding, of the UTF-8 bytes of `s`
/// (`base64::engine::general_purpose::URL_SAFE_NO_PAD.encode`).
pub uninterp spec fn base64_url_text(s: Seq<char>) -> Seq<char>;

/// The bytes that URL-safe unpadded base64 text `s` stands for, or `None`
/// where `URL_SAFE_NO_PAD.decode` rejects it.
pub uninterp spec fn base64_url_bytes(s: Seq<char>) -> Option<Seq<u8>>;

/// `serde_json::to_string` of a string slice. Serialising a `str` into
/// memory cannot fail; the contract names the literal it writes.
#[verifier::external_body]
pub(crate) fn json_quote(s: &str) -> (r: String)
    ensures
        r@ == json_string_literal(s@),
{
    match serde_json::to_string(s) {
        Ok(t) => t,
        Err(_) => String::new(),
    }
}

/// `URL_SAFE_NO_PAD.encode` of the UTF-8 bytes of `s`; the contract names
/// the text it returns.
#[verifier::external_body]
pub(crate) fn base64_url_encode(s: &str) -> (r: String)
    ensures
        r@ == base64_url_text(s@),
{
    base64::engine::general_purpose::URL_SAFE_NO_PAD.encode(s.as_bytes())
}

/// `URL_SAFE_NO_PAD.decode` of `s`, its error taken as `None`; the contract
/// names the outcome.
#[verifier::external_body]
pub(crate) fn base64_url_decode(s: &str) -> (r: Option<Vec<u8>>)
    ensures
        r matches Some(b) ==> base64_url_bytes(s@) == Some(b@),
        r is None ==> base64_url_bytes(s@) is None,
{
    match base64::engine::general_purpose::URL_SAFE_NO_PAD.decode(s) {
        Ok(b) => Some(b),
        Err(_) => None,
    }
}

} // verus!
