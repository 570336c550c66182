//! Track rows and the path predicates the track queries are built from.

use vstd::prelude::*;

use crate::fspath::{extension_lower, extension_lower_exec};
use crate::order::{compare_text, Comparison};
use crate::text::{
    append_chars, chars_of, starts_with, string_of, trim, trim_chars, trim_end_char, trim_end_char_chars,
    trim_start_char, trim_start_char_chars,
};

verus! {

#[derive(Debug, Clone)]
pub struct TrackRow {
    pub id: i64,
    pub album_id: i64,
    pub title: String,
    pub track_number: Option<i32>,
    pub year: Option<i32>,
    pub disc_number: Option<i32>,
    pub genre: Option<String>,
    pub qobuz_track_id: Option<i64>,
    pub path: String,
    pub duration_sec: Option<i32>,
    pub file_mtime: Option<String>,
    pub file_hash: Option<String>,
    pub file_size: Option<i64>,
}

pub struct TrackUpsert<'a> {
    pub album_id: i64,
    pub title: &'a str,
    pub track_number: Option<i32>,
    pub year: Option<i32>,
    pub disc_number: Option<i32>,
    pub genre: Option<&'a str>,
    pub qobuz_track_id: Option<i64>,
    pub path: &'a str,
    pub duration_sec: Option<i32>,
    pub file_mtime: Option<&'a str>,
    pub file_hash: Option<&'a str>,
    pub file_size: Option<i64>,
}

/// Tag fields written back to a track row after an edit.
pub struct TrackMetadataUpdate<'a> {
    pub title: &'a str,
    pub track_number: Option<i32>,
    pub year: Option<i32>,
    pub disc_number: Option<i32>,
    pub genre: Option<&'a str>,
    pub file_mtime: Option<&'a str>,
}

#[derive(Debug, Clone)]
pub struct TrackHashBackfillRow {
    pub id: i64,
    pub path: String,
    pub file_size: Option<i64>,
}

/// A scan scope: trimmed, without leading or trailing `/`; empty for the
/// whole library.
pub open spec fn normalized_scope_spec(scope: Option<Seq<char>>) -> Seq<char> {
    let s = match scope {
        Some(s) => s,
        None => Seq::empty(),
    };
    trim_end_char(trim_start_char(trim(s), '/'), '/')
}

pub fn normalized_scope(scope_path: Option<&str>) -> (r: String)
    ensures
        r@ == normalized_scope_spec(match scope_path {
            Some(s) => Some(s@),
            None => None,
        }),
{
    let v = match scope_path {
        Some(s) => chars_of(s),
        None => Vec::new(),
    };
    let t = trim_chars(v.as_slice());
    let a = trim_start_char_chars(t.as_slice(), '/');
    let b = trim_end_char_chars(a.as_slice(), '/');
    string_of(b.as_slice())
}

/// The range `[lower, upper)` of paths under directory `path`: `lower` is
/// the path with one trailing `/`, `upper` the same with that `/` raised to
/// the next character, `0`.
pub open spec fn prefix_bounds_spec(path: Seq<char>) -> (Seq<char>, Seq<char>) {
    let t = trim_end_char(path, '/');
    (t.push('/'), t.push('0'))
}

pub fn path_prefix_bounds(path: &str) -> (r: (String, String))
    ensures
        (r.0@, r.1@) == prefix_bounds_spec(path@),
{
    let v = chars_of(path);
    let t = trim_end_char_chars(v.as_slice(), '/');
    let mut lower = t.clone();
    lower.push('/');
    let mut upper = t;
    upper.push('0');
    (string_of(lower.as_slice()), string_of(upper.as_slice()))
}

proof fn lemma_between_iff_prefix(t: Seq<char>, s: Seq<char>)
    ensures
        (compare_text(s, t.push('/')) != Comparison::Less && compare_text(s, t.push('0'))
            == Comparison::Less) == starts_with(s, t.push('/')),
    decreases t.len(),
{
    let lo = t.push('/');
    let hi = t.push('0');
    if t.len() == 0 {
        if s.len() > 0 {
            assert(lo.drop_first() =~= Seq::<char>::empty());
            assert(hi.drop_first() =~= Seq::<char>::empty());
            assert(s.take(1) =~= seq![s[0]]);
            assert(lo =~= seq!['/']);
        }
    } else if s.len() > 0 {
        assert(lo.drop_first() =~= t.drop_first().push('/'));
        assert(hi.drop_first() =~= t.drop_first().push('0'));
        lemma_between_iff_prefix(t.drop_first(), s.drop_first());
        if s[0] == t[0] {
            if starts_with(s.drop_first(), lo.drop_first()) {
                assert(s.take(lo.len() as int) =~= seq![s[0]] + s.drop_first().take(
                    lo.drop_first().len() as int,
                ));
                assert(lo =~= seq![lo[0]] + lo.drop_first());
            }
            if starts_with(s, lo) {
                assert(s.drop_first().take(lo.drop_first().len() as int) =~= s.take(
                    lo.len() as int,
                ).drop_first());
            }
        } else if s.len() >= lo.len() {
            assert(s.take(lo.len() as int)[0] == s[0]);
            assert(lo[0] == t[0]);
        }
    }
}

/// A path lies in `[lower, upper)` exactly when it is below `path`, so the
/// range predicate selects a directory's contents through the path index.
pub proof fn lemma_prefix_bounds_select_subtree(path: Seq<char>, s: Seq<char>)
    ensures
        ({
            let (lower, upper) = prefix_bounds_spec(path);
            (compare_text(s, lower) != Comparison::Less && compare_text(s, upper)
                == Comparison::Less) == starts_with(s, trim_end_char(path, '/').push('/'))
        }),
{
    lemma_between_iff_prefix(trim_end_char(path, '/'), s);
}

pub fn path_extension_lower(path: &str) -> (r: Option<String>)
    ensures
        r matches Some(e) ==> extension_lower(path@) == Some(e@),
        r is None ==> extension_lower(path@) is None,
{
    let v = chars_of(path);
    match extension_lower_exec(v.as_slice()) {
        Some(e) => Some(string_of(e.as_slice())),
        None => None,
    }
}

/// The statement that deletes the tracks of a scope that a scan did not
/// keep: every track when the scope is empty, else the scope's own path and
/// the paths under it; the kept paths are a temporary table, or the rows of
/// the scan in `scan_keep_paths`.
pub open spec fn absent_delete_sql(scope_empty: bool, for_scan: bool) -> Seq<char> {
    "DELETE FROM tracks WHERE "@ + (if scope_empty {
        "1=1"@
    } else {
        "(path = ? OR (path >= ? AND path < ?))"@
    }) + (if for_scan {
        " AND NOT EXISTS (SELECT 1 FROM scan_keep_paths keep WHERE keep.scan_id = ? AND keep.path = tracks.path)"@
    } else {
        " AND NOT EXISTS (SELECT 1 FROM euterpe_scan_keep_paths keep WHERE keep.path = tracks.path)"@
    })
}

/// The values bound to the scope's placeholders: the scope and its prefix
/// bounds, or none for the whole library.
pub open spec fn absent_delete_binds(scope: Seq<char>) -> Seq<Seq<char>> {
    if scope.len() == 0 {
        seq![]
    } else {
        seq![scope, prefix_bounds_spec(scope).0, prefix_bounds_spec(scope).1]
    }
}

/// The statement and scope values of `delete_absent_in_scope` (and, with
/// `for_scan`, of `delete_absent_in_scope_for_scan`, whose scan id is bound
/// last).
pub fn absent_in_scope_delete(scope_path: Option<&str>, for_scan: bool) -> (r: (String, Vec<String>))
    ensures
        ({
            let scope = normalized_scope_spec(match scope_path {
                Some(s) => Some(s@),
                None => None,
            });
            &&& r.0@ == absent_delete_sql(scope.len() == 0, for_scan)
            &&& r.1@.map_values(|b: String| b@) == absent_delete_binds(scope)
        }),
{
    let scope = normalized_scope(scope_path);
    let mut sql = chars_of("DELETE FROM tracks WHERE ");
    let mut binds: Vec<String> = Vec::new();
    let scope_empty = chars_of(scope.as_str()).len() == 0;
    if scope_empty {
        append_chars(&mut sql, chars_of("1=1").as_slice());
    } else {
        append_chars(&mut sql, chars_of("(path = ? OR (path >= ? AND path < ?))").as_slice());
        let (lower, upper) = path_prefix_bounds(scope.as_str());
        binds.push(scope.clone());
        binds.push(lower);
        binds.push(upper);
    }
    if for_scan {
        append_chars(
            &mut sql,
            chars_of(" AND NOT EXISTS (SELECT 1 FROM scan_keep_paths keep WHERE keep.scan_id = ? AND keep.path = tracks.path)").as_slice(),
        );
    } else {
        append_chars(
            &mut sql,
            chars_of(" AND NOT EXISTS (SELECT 1 FROM euterpe_scan_keep_paths keep WHERE keep.path = tracks.path)").as_slice(),
        );
    }
    proof {
        assert(binds@.map_values(|b: String| b@) =~= absent_delete_binds(scope@));
    }
    (string_of(sql.as_slice()), binds)
}

} // verus!
