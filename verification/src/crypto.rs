//! The master key and the secrets encrypted with it: AES-256-GCM under a
//! random 12-byte nonce, stored as base64 of the nonce followed by the
//! ciphertext.

use vstd::prelude::*;

use aes_gcm::aead::{Aead, AeadCore, KeyInit, OsRng};
use aes_gcm::{Aes256Gcm, Nonce};
use base64::Engine;

use crate::error::ApiError;
use crate::text::{append_chars, chars_of, starts_with, str_to_string, string_of};

verus! {

/// Length of the nonce in front of each ciphertext.
pub const NONCE_LEN: usize = 12;

/// The longest plaintext AES-GCM encrypts: 2^36 bytes.
pub const AES_GCM_P_MAX: u64 = 68719476736;

/// What `hex::decode` makes of `s`: its bytes, or the text of its error.
pub uninterp spec fn hex_decoding(s: Seq<char>) -> Result<Seq<u8>, Seq<char>>;

/// What the standard base64 engine's `decode` makes of `s`: its bytes, or
/// the text of its error.
pub uninterp spec fn base64_std_decoding(s: Seq<char>) -> Result<Seq<u8>, Seq<char>>;

/// The standard base64 text (with padding) of `b`.
pub uninterp spec fn base64_std_text(b: Seq<u8>) -> Seq<char>;

/// What AES-256-GCM encryption of `plaintext` under `key` and `nonce`
/// gives: the ciphertext with its tag, or the text of the error.
pub uninterp spec fn aes_gcm_sealing(key: Seq<u8>, nonce: Seq<u8>, plaintext: Seq<u8>) -> Result<
    Seq<u8>,
    Seq<char>,
>;

/// What AES-256-GCM decryption of `ciphertext` under `key` and `nonce`
/// gives: the plaintext, or the text of the error.
pub uninterp spec fn aes_gcm_opening(key: Seq<u8>, nonce: Seq<u8>, ciphertext: Seq<u8>) -> Result<
    Seq<u8>,
    Seq<char>,
>;

/// The text of the error `String::from_utf8` reports for bytes that are
/// not UTF-8.
pub uninterp spec fn utf8_error_text(b: Seq<u8>) -> Seq<char>;

pub open spec fn is_hex_digit(c: char) -> bool {
    ('0' <= c && c <= '9') || ('a' <= c && c <= 'f') || ('A' <= c && c <= 'F')
}

/// Text of even length made of hex digits.
pub open spec fn even_hex(s: Seq<char>) -> bool {
    s.len() % 2 == 0 && forall|i: int| 0 <= i < s.len() ==> is_hex_digit(#[trigger] s[i])
}

/// A successful decoding to `b`.
pub open spec fn decoded_ok(b: Seq<u8>) -> Result<Seq<u8>, Seq<char>> {
    Ok(b)
}

/// `hex::decode`, its error turned into its text. Input of even length made
/// of hex digits decodes to half as many bytes.
#[verifier::external_body]
fn hex_decode(s: &str) -> (r: Result<Vec<u8>, String>)
    ensures
        match r {
            Ok(b) => hex_decoding(s@) matches Ok(x) && x == b@,
            Err(e) => hex_decoding(s@) matches Err(x) && x == e@,
        },
        r is Ok || !even_hex(s@),
        r matches Ok(b) ==> (even_hex(s@) ==> b@.len() * 2 == s@.len()),
{
    hex::decode(s).map_err(|e| e.to_string())
}

/// The standard base64 engine's `decode`, its error turned into its text.
#[verifier::external_body]
pub(crate) fn base64_std_decode(s: &str) -> (r: Result<Vec<u8>, String>)
    ensures
        match r {
            Ok(b) => base64_std_decoding(s@) matches Ok(x) && x == b@,
            Err(e) => base64_std_decoding(s@) matches Err(x) && x == e@,
        },
{
    base64::engine::general_purpose::STANDARD.decode(s).map_err(|e| e.to_string())
}

/// The standard base64 engine's `encode`; decoding its text gives the
/// bytes back, and the padded text holds four characters for every three
/// bytes begun (`encoded_len` with padding).
#[verifier::external_body]
fn base64_std_encode(b: &[u8]) -> (r: String)
    ensures
        r@ == base64_std_text(b@),
        base64_std_decoding(r@) == decoded_ok(b@),
        r@.len() == 4 * ((b@.len() + 2) / 3),
{
    base64::engine::general_purpose::STANDARD.encode(b)
}

/// A fresh nonce from the operating system's random source
/// (`Aes256Gcm::generate_nonce` with `OsRng`). Nothing is said of its bytes
/// but their number.
#[verifier::external_body]
fn random_nonce() -> (r: Vec<u8>)
    ensures
        r@.len() == NONCE_LEN,
{
    Aes256Gcm::generate_nonce(&mut OsRng).to_vec()
}

/// `Aead::encrypt` of an `Aes256Gcm` made from `key`, its error turned into
/// its text. What it seals decrypts back under the same key and nonce, and
/// the ciphertext is the plaintext's length plus the 16-byte tag. With a
/// 32-byte key, the source refuses exactly the plaintexts longer than `P_MAX`
/// (2^36 bytes).
#[verifier::external_body]
fn aes_gcm_seal(key: &[u8], nonce: &[u8], plaintext: &[u8]) -> (r: Result<Vec<u8>, String>)
    requires
        key@.len() == 32,
        nonce@.len() == NONCE_LEN,
    ensures
        match r {
            Ok(c) => (aes_gcm_sealing(key@, nonce@, plaintext@) matches Ok(x) && x == c@) && (
            aes_gcm_opening(key@, nonce@, c@) matches Ok(y) && y == plaintext@) && c@.len()
                == plaintext@.len() + 16,
            Err(e) => aes_gcm_sealing(key@, nonce@, plaintext@) matches Err(x) && x == e@,
        },
        r is Ok <==> plaintext@.len() <= AES_GCM_P_MAX,
{
    match Aes256Gcm::new_from_slice(key) {
        Ok(c) => c.encrypt(Nonce::from_slice(nonce), plaintext).map_err(|e| e.to_string()),
        Err(e) => Err(e.to_string()),
    }
}

/// `Aead::decrypt` of an `Aes256Gcm` made from `key`, its error turned into
/// its text.
#[verifier::external_body]
fn aes_gcm_open(key: &[u8], nonce: &[u8], ciphertext: &[u8]) -> (r: Result<Vec<u8>, String>)
    requires
        key@.len() == 32,
        nonce@.len() == NONCE_LEN,
    ensures
        match r {
            Ok(p) => aes_gcm_opening(key@, nonce@, ciphertext@) matches Ok(x) && x == p@,
            Err(e) => aes_gcm_opening(key@, nonce@, ciphertext@) matches Err(x) && x == e@,
        },
{
    match Aes256Gcm::new_from_slice(key) {
        Ok(c) => c.decrypt(Nonce::from_slice(nonce), ciphertext).map_err(|e| e.to_string()),
        Err(e) => Err(e.to_string()),
    }
}

/// `String::from_utf8`, its error turned into its text: the string the
/// bytes encode when they are valid UTF-8, else the error.
#[verifier::external_body]
pub(crate) fn string_from_utf8(b: Vec<u8>) -> (r: Result<String, String>)
    ensures
        match r {
            Ok(s) => vstd::utf8::valid_utf8(b@) && s@ == vstd::utf8::decode_utf8(b@),
            Err(e) => !vstd::utf8::valid_utf8(b@) && e@ == utf8_error_text(b@),
        },
{
    String::from_utf8(b).map_err(|e| e.to_string())
}

/// The key that encrypts stored secrets (`EUTERPE_MASTER_KEY`).
#[derive(Clone, Debug)]
pub struct MasterKey([u8; 32]);

/// A 64-character key is read as hex when every character is a hex digit.
pub open spec fn looks_hex(s: Seq<char>) -> bool {
    s.len() == 64 && forall|i: int| 0 <= i < s.len() ==> is_hex_digit(#[trigger] s[i])
}

/// What `MasterKey::parse` makes of a configured key: its 32 bytes, or the
/// message of the configuration error.
pub open spec fn master_key_spec(s: Seq<char>) -> Result<Seq<u8>, Seq<char>> {
    let decoded = if looks_hex(s) {
        match hex_decoding(s) {
            Ok(b) => Ok(b),
            Err(e) => Err("invalid EUTERPE_MASTER_KEY hex: "@ + e),
        }
    } else {
        match base64_std_decoding(s) {
            Ok(b) => Ok(b),
            Err(e) => Err("invalid EUTERPE_MASTER_KEY base64: "@ + e),
        }
    };
    match decoded {
        Ok(b) => if b.len() == 32 {
            Ok(b)
        } else {
            Err("EUTERPE_MASTER_KEY must be 32 bytes"@)
        },
        Err(m) => Err(m),
    }
}

/// What decrypting a stored secret gives: the text, or the message of the
/// error.
pub open spec fn decrypt_spec(key: Seq<u8>, encoded: Seq<char>) -> Result<Seq<char>, Seq<char>> {
    match base64_std_decoding(encoded) {
        Err(e) => Err("invalid ciphertext: "@ + e),
        Ok(data) => if data.len() <= NONCE_LEN {
            Err("ciphertext too short"@)
        } else {
            match aes_gcm_opening(key, data.take(NONCE_LEN as int), data.skip(NONCE_LEN as int)) {
                Err(e) => Err("decrypt failed: "@ + e),
                Ok(plain) => if vstd::utf8::valid_utf8(plain) {
                    Ok(vstd::utf8::decode_utf8(plain))
                } else {
                    Err("utf8: "@ + utf8_error_text(plain))
                },
            }
        },
    }
}

fn prefixed_message(prefix: &str, rest: &String) -> (e: ApiError)
    ensures
        e matches ApiError::Message(m) && m@ == prefix@ + rest@,
{
    let mut v = chars_of(prefix);
    let w = chars_of(rest.as_str());
    append_chars(&mut v, w.as_slice());
    ApiError::Message(string_of(v.as_slice()))
}

fn prefixed_config(prefix: &str, rest: &String) -> (e: ApiError)
    ensures
        e matches ApiError::Config(m) && m@ == prefix@ + rest@,
{
    let mut v = chars_of(prefix);
    let w = chars_of(rest.as_str());
    append_chars(&mut v, w.as_slice());
    ApiError::Config(string_of(v.as_slice()))
}

/// Every character takes at least one byte in UTF-8.
proof fn lemma_utf8_not_shorter(chars: Seq<char>)
    ensures
        vstd::utf8::encode_utf8(chars).len() >= chars.len(),
    decreases chars.len(),
{
    if chars.len() > 0 {
        lemma_utf8_not_shorter(chars.drop_first());
    }
}

impl MasterKey {
    /// The key's bytes.
    pub closed spec fn key(&self) -> Seq<u8> {
        self.0@
    }

    /// A key from its configured text: 64 hex digits, else standard
    /// base64; either way exactly 32 bytes.
    pub fn parse(s: &str) -> (r: Result<MasterKey, ApiError>)
        ensures
            match master_key_spec(s@) {
                Ok(b) => r matches Ok(k) && k.key() == b,
                Err(m) => r matches Err(ApiError::Config(x)) && x@ == m,
            },
    {
        let v = chars_of(s);
        let mut hex = v.len() == 64;
        let mut i: usize = 0;
        while i < v.len()
            invariant
                i <= v@.len(),
                hex == (v@.len() == 64 && forall|j: int| 0 <= j < i ==> is_hex_digit(#[trigger] v@[j])),
            decreases v.len() - i,
        {
            let c = v[i];
            if !(('0' <= c && c <= '9') || ('a' <= c && c <= 'f') || ('A' <= c && c <= 'F')) {
                hex = false;
            }
            i += 1;
        }
        let decoded = if hex {
            match hex_decode(s) {
                Ok(b) => b,
                Err(e) => {
                    return Err(prefixed_config("invalid EUTERPE_MASTER_KEY hex: ", &e));
                },
            }
        } else {
            match base64_std_decode(s) {
                Ok(b) => b,
                Err(e) => {
                    return Err(prefixed_config("invalid EUTERPE_MASTER_KEY base64: ", &e));
                },
            }
        };
        if decoded.len() != 32 {
            return Err(ApiError::Config(str_to_string("EUTERPE_MASTER_KEY must be 32 bytes")));
        }
        let mut key = [0u8; 32];
        let mut j: usize = 0;
        while j < 32
            invariant
                j <= 32,
                decoded@.len() == 32,
                forall|k: int| 0 <= k < j ==> key@[k] == decoded@[k],
            decreases 32 - j,
        {
            key[j] = decoded[j];
            j += 1;
        }
        assert(key@ =~= decoded@);
        Ok(MasterKey(key))
    }

    /// Encrypts a secret for storage; what it returns decrypts back to the
    /// secret under the same key. Any secret of at most 2^36 bytes (as
    /// UTF-8) is encrypted; a longer one is refused.
    pub fn encrypt(&self, plaintext: &str) -> (r: Result<String, ApiError>)
        ensures
            r matches Ok(t) ==> decrypt_spec(self.key(), t@) == Ok::<Seq<char>, Seq<char>>(
                plaintext@,
            ),
            r is Ok <==> vstd::utf8::encode_utf8(plaintext@).len() <= AES_GCM_P_MAX,
            r matches Err(e) ==> (e matches ApiError::Message(m) && starts_with(
                m@,
                "encrypt failed: "@,
            )),
            r matches Ok(t) ==> t@.len() > plaintext@.len() && t@ != plaintext@,
    {
        let nonce = random_nonce();
        let bytes = plaintext.as_bytes();
        let ct = match aes_gcm_seal(self.0.as_slice(), nonce.as_slice(), bytes) {
            Ok(c) => c,
            Err(e) => {
                let err = prefixed_message("encrypt failed: ", &e);
                proof {
                    let m = err->Message_0@;
                    assert(m.subrange(0, "encrypt failed: "@.len() as int) =~= "encrypt failed: "@);
                }
                return Err(err);
            },
        };
        let mut out = nonce.clone();
        let mut i: usize = 0;
        while i < ct.len()
            invariant
                i <= ct@.len(),
                out@ == nonce@ + ct@.take(i as int),
            decreases ct.len() - i,
        {
            out.push(ct[i]);
            assert(ct@.take(i + 1) =~= ct@.take(i as int).push(ct@[i as int]));
            i += 1;
        }
        assert(ct@.take(i as int) =~= ct@);
        let text = base64_std_encode(out.as_slice());
        proof {
            assert(out@.take(NONCE_LEN as int) =~= nonce@);
            assert(out@.skip(NONCE_LEN as int) =~= ct@);
            vstd::utf8::encode_utf8_valid_utf8(plaintext@);
            vstd::utf8::encode_utf8_decode_utf8(plaintext@);
            lemma_utf8_not_shorter(plaintext@);
            let b = bytes@.len();
            assert(out@.len() == b + 28);
            assert(4 * ((b + 28 + 2) / 3) > b) by (nonlinear_arith);
        }
        Ok(text)
    }

    /// Decrypts a stored secret.
    pub fn decrypt(&self, encoded: &str) -> (r: Result<String, ApiError>)
        ensures
            match decrypt_spec(self.key(), encoded@) {
                Ok(t) => r matches Ok(s) && s@ == t,
                Err(m) => r matches Err(ApiError::Message(x)) && x@ == m,
            },
    {
        let data = match base64_std_decode(encoded) {
            Ok(d) => d,
            Err(e) => {
                return Err(prefixed_message("invalid ciphertext: ", &e));
            },
        };
        if data.len() <= NONCE_LEN {
            return Err(ApiError::Message(str_to_string("ciphertext too short")));
        }
        let nonce = crate::text::slice_u8(data.as_slice(), 0, NONCE_LEN);
        let ct = crate::text::slice_u8(data.as_slice(), NONCE_LEN, data.len());
        let plain = match aes_gcm_open(self.0.as_slice(), nonce.as_slice(), ct.as_slice()) {
            Ok(p) => p,
            Err(e) => {
                return Err(prefixed_message("decrypt failed: ", &e));
            },
        };
        match string_from_utf8(plain) {
            Ok(s) => Ok(s),
            Err(e) => Err(prefixed_message("utf8: ", &e)),
        }
    }
}

} // verus!
