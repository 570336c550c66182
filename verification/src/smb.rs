//! SMB credentials: the user name sent to the server and its password.

use vstd::prelude::*;

use crate::text::{append_chars, chars_of, contains_char, string_of, trim, trim_chars};

verus! {

#[derive(Debug, Clone)]
pub struct SmbCredentials {
    pub username: String,
    pub password: String,
}

/// The user name sent for `username` in `workgroup`: both trimmed; a user
/// already qualified by `\` or `@`, or one without a workgroup, as it is;
/// otherwise `WORKGROUP\user`.
pub open spec fn smb_username_spec(workgroup: Option<Seq<char>>, username: Seq<char>) -> Seq<char> {
    let user = trim(username);
    let wg = match workgroup {
        Some(w) => trim(w),
        None => Seq::empty(),
    };
    if wg.len() == 0 || user.contains('\\') || user.contains('@') {
        user
    } else {
        wg + seq!['\\'] + user
    }
}

pub fn format_smb_username(workgroup: Option<&str>, username: &str) -> (r: String)
    ensures
        r@ == smb_username_spec(
            match workgroup {
                Some(w) => Some(w@),
                None => None,
            },
            username@,
        ),
{
    let uv = chars_of(username);
    let user = trim_chars(uv.as_slice());
    let wg = match workgroup {
        Some(w) => {
            let wv = chars_of(w);
            trim_chars(wv.as_slice())
        },
        None => Vec::new(),
    };
    if wg.len() == 0 || contains_char(user.as_slice(), '\\') || contains_char(user.as_slice(), '@') {
        return string_of(user.as_slice());
    }
    let mut out = wg;
    out.push('\\');
    append_chars(&mut out, user.as_slice());
    string_of(out.as_slice())
}

} // verus!
