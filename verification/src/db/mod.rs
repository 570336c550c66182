//! Database rows, list parameters and the query logic around them.

pub mod albums;
pub mod convert_jobs;
pub mod cue_jobs;
pub mod download_jobs;
pub mod favorites;
pub mod integrations;
pub mod qobuz_accounts;
pub mod tracks;

use vstd::prelude::*;

use crate::text::{
    chars_of, contains_lit, contains_seq, slice_of, split_char, split_char_exec, starts_with,
    starts_with_lit, chars_is, deep, string_of, trim, trim_chars,
};

verus! {

/// The file a `sqlite:` database URL names: the text after `sqlite:` up to
/// the first `?`, trimmed; none for in-memory databases, other schemes and
/// an empty path.
pub open spec fn sqlite_file_path_spec(url: Seq<char>) -> Option<Seq<char>> {
    if contains_seq(url, ":memory:"@) || !starts_with(url, "sqlite:"@) {
        None
    } else {
        let rest = url.skip(7);
        let p = trim(split_char(rest, '?')[0]);
        if p.len() == 0 || p == ":memory:"@ {
            None
        } else {
            Some(p)
        }
    }
}

pub fn sqlite_file_path(database_url: &str) -> (r: Option<String>)
    ensures
        r matches Some(p) ==> sqlite_file_path_spec(database_url@) == Some(p@),
        r is None ==> sqlite_file_path_spec(database_url@) is None,
{
    let v = chars_of(database_url);
    if contains_lit(v.as_slice(), ":memory:") {
        return None;
    }
    if !starts_with_lit(v.as_slice(), "sqlite:") {
        return None;
    }
    proof {
        reveal_strlit("sqlite:");
    }
    let rest = slice_of(v.as_slice(), 7, v.len());
    assert(rest@ =~= v@.skip(7));
    let pieces = split_char_exec(rest.as_slice(), '?');
    proof {
        assert(split_char(rest@, '?').len() >= 1);
        assert(deep(pieces@).len() == pieces@.len());
    }
    let p = trim_chars(pieces[0].as_slice());
    if p.len() == 0 || chars_is(p.as_slice(), ":memory:") {
        return None;
    }
    Some(string_of(p.as_slice()))
}

} // verus!
