//! Model of POSIX `std::path::Path` queries on `/`-separated strings:
//! components, file name, file stem and extension.

use vstd::prelude::*;

use crate::text::{
    ascii_lower, ascii_lower_chars, deep, lemma_rfind_char_bounds, rfind_char, rfind_char_exec,
    slice_of, split_char, split_char_exec,
};

verus! {

/// A piece of a `/`-split path that `Path::components` yields as a component
/// (empty pieces and `.` are skipped).
pub open spec fn is_kept_piece(p: Seq<char>) -> bool {
    p.len() > 0 && p != seq!['.']
}

pub open spec fn keep_pieces(ps: Seq<Seq<char>>) -> Seq<Seq<char>>
    decreases ps.len(),
{
    if ps.len() == 0 {
        ps
    } else {
        let r = keep_pieces(ps.drop_last());
        if is_kept_piece(ps.last()) {
            r.push(ps.last())
        } else {
            r
        }
    }
}

/// The named components of a path (root and `.` dropped).
pub open spec fn components(s: Seq<char>) -> Seq<Seq<char>> {
    keep_pieces(split_char(s, '/'))
}

pub open spec fn is_parent_dir(p: Seq<char>) -> bool {
    p == seq!['.', '.']
}

/// `Path::file_name` of a path with these components.
pub open spec fn last_name(cs: Seq<Seq<char>>) -> Option<Seq<char>> {
    if cs.len() > 0 && !is_parent_dir(cs.last()) {
        Some(cs.last())
    } else {
        None
    }
}

/// `Path::file_name`.
pub open spec fn file_name(s: Seq<char>) -> Option<Seq<char>> {
    last_name(components(s))
}

/// File name of the `k`-th ancestor (`k == 0`: the path itself,
/// `k == 1`: `parent()`, ...).
pub open spec fn nth_name(cs: Seq<Seq<char>>, k: nat) -> Option<Seq<char>> {
    if cs.len() > k && !is_parent_dir(cs[cs.len() - 1 - k]) {
        Some(cs[cs.len() - 1 - k])
    } else {
        None
    }
}

/// `Path::file_stem` of a file name.
pub open spec fn stem_of_name(n: Seq<char>) -> Seq<char> {
    match rfind_char(n, '.') {
        Some(i) => if i == 0 {
            n
        } else {
            n.subrange(0, i)
        },
        None => n,
    }
}

/// `Path::extension` of a file name.
pub open spec fn ext_of_name(n: Seq<char>) -> Option<Seq<char>> {
    match rfind_char(n, '.') {
        Some(i) => if i == 0 {
            None
        } else {
            Some(n.subrange(i + 1, n.len() as int))
        },
        None => None,
    }
}

/// `Path::file_stem`.
pub open spec fn file_stem(s: Seq<char>) -> Option<Seq<char>> {
    match file_name(s) {
        Some(n) => Some(stem_of_name(n)),
        None => None,
    }
}

/// `Path::extension`.
pub open spec fn extension(s: Seq<char>) -> Option<Seq<char>> {
    match file_name(s) {
        Some(n) => ext_of_name(n),
        None => None,
    }
}

/// Lower-cased extension (`extension().map(to_ascii_lowercase)`).
pub open spec fn extension_lower(s: Seq<char>) -> Option<Seq<char>> {
    match extension(s) {
        Some(e) => Some(ascii_lower(e)),
        None => None,
    }
}

pub fn is_parent_dir_exec(p: &[char]) -> (r: bool)
    ensures
        r == is_parent_dir(p@),
{
    let r = p.len() == 2 && p[0] == '.' && p[1] == '.';
    assert(r ==> p@ =~= seq!['.', '.']);
    r
}

fn is_kept_piece_exec(p: &[char]) -> (r: bool)
    ensures
        r == is_kept_piece(p@),
{
    if p.len() == 0 {
        return false;
    }
    let dot = p.len() == 1 && p[0] == '.';
    assert(dot ==> p@ =~= seq!['.']);
    assert(p@ == seq!['.'] ==> p@.len() == 1 && p@[0] == '.');
    !dot
}

/// `Path::components` (named ones) of `v`.
pub fn components_exec(v: &[char]) -> (r: Vec<Vec<char>>)
    ensures
        deep(r@) == components(v@),
{
    let pieces = split_char_exec(v, '/');
    let mut out: Vec<Vec<char>> = Vec::new();
    let mut i: usize = 0;
    while i < pieces.len()
        invariant
            i <= pieces.len(),
            deep(pieces@) == split_char(v@, '/'),
            deep(out@) == keep_pieces(deep(pieces@).subrange(0, i as int)),
        decreases pieces.len() - i,
    {
        let ghost pre = deep(pieces@).subrange(0, i as int);
        let ghost next = deep(pieces@).subrange(0, i + 1);
        assert(next.drop_last() =~= pre);
        assert(next.last() == pieces@[i as int]@);
        if is_kept_piece_exec(pieces[i].as_slice()) {
            let ghost before = out@;
            out.push(slice_of(pieces[i].as_slice(), 0, pieces[i].len()));
            assert(pieces@[i as int]@.subrange(0, pieces@[i as int]@.len() as int)
                =~= pieces@[i as int]@);
            assert(deep(out@) =~= deep(before).push(next.last()));
        }
        i += 1;
    }
    assert(deep(pieces@).subrange(0, pieces.len() as int) =~= deep(pieces@));
    out
}

/// File name of the `k`-th ancestor of `v`.
pub fn nth_name_exec(v: &[char], k: usize) -> (r: Option<Vec<char>>)
    ensures
        r matches Some(n) ==> nth_name(components(v@), k as nat) == Some(n@),
        r is None ==> nth_name(components(v@), k as nat) is None,
{
    let cs = components_exec(v);
    if cs.len() <= k {
        return None;
    }
    let item = &cs[cs.len() - 1 - k];
    assert(deep(cs@)[cs.len() - 1 - k] == item@);
    if is_parent_dir_exec(item.as_slice()) {
        return None;
    }
    Some(slice_of(item.as_slice(), 0, item.len()))
}

/// `Path::new(s).file_name()`.
pub fn file_name_exec(v: &[char]) -> (r: Option<Vec<char>>)
    ensures
        r matches Some(n) ==> file_name(v@) == Some(n@),
        r is None ==> file_name(v@) is None,
{
    let cs = components_exec(v);
    if cs.len() == 0 {
        return None;
    }
    let last = &cs[cs.len() - 1];
    assert(deep(cs@).last() == last@);
    if is_parent_dir_exec(last.as_slice()) {
        return None;
    }
    Some(slice_of(last.as_slice(), 0, last.len()))
}

pub fn stem_of_name_exec(n: &[char]) -> (r: Vec<char>)
    ensures
        r@ == stem_of_name(n@),
{
    match rfind_char_exec(n, '.') {
        Some(i) => {
            if i == 0 {
                slice_of(n, 0, n.len())
            } else {
                proof {
                    lemma_rfind_char_bounds(n@, '.');
                }
                slice_of(n, 0, i)
            }
        },
        None => slice_of(n, 0, n.len()),
    }
}

pub fn ext_of_name_exec(n: &[char]) -> (r: Option<Vec<char>>)
    ensures
        r matches Some(e) ==> ext_of_name(n@) == Some(e@),
        r is None ==> ext_of_name(n@) is None,
{
    match rfind_char_exec(n, '.') {
        Some(i) => {
            if i == 0 {
                None
            } else {
                proof {
                    lemma_rfind_char_bounds(n@, '.');
                }
                assert(i < n.len());
                Some(slice_of(n, i + 1, n.len()))
            }
        },
        None => None,
    }
}

/// `Path::new(s).file_stem()`.
pub fn file_stem_exec(v: &[char]) -> (r: Option<Vec<char>>)
    ensures
        r matches Some(n) ==> file_stem(v@) == Some(n@),
        r is None ==> file_stem(v@) is None,
{
    match file_name_exec(v) {
        Some(n) => Some(stem_of_name_exec(n.as_slice())),
        None => None,
    }
}

/// `Path::new(s).extension()`.
pub fn extension_exec(v: &[char]) -> (r: Option<Vec<char>>)
    ensures
        r matches Some(e) ==> extension(v@) == Some(e@),
        r is None ==> extension(v@) is None,
{
    match file_name_exec(v) {
        Some(n) => ext_of_name_exec(n.as_slice()),
        None => None,
    }
}

/// `Path::new(s).extension().map(|e| e.to_ascii_lowercase())`.
pub fn extension_lower_exec(v: &[char]) -> (r: Option<Vec<char>>)
    ensures
        r matches Some(e) ==> extension_lower(v@) == Some(e@),
        r is None ==> extension_lower(v@) is None,
{
    match extension_exec(v) {
        Some(e) => Some(ascii_lower_chars(e.as_slice())),
        None => None,
    }
}

/// The component that `Path::components` yields before the named ones: the
/// root (written `/`) for an absolute path, the current directory (written
/// `.`) for a relative path that is `.` or starts with `./`, else none.
pub open spec fn lead_components(s: Seq<char>) -> Seq<Seq<char>> {
    if s.len() > 0 && s[0] == '/' {
        seq![seq!['/']]
    } else if s == seq!['.'] || (s.len() >= 2 && s[0] == '.' && s[1] == '/') {
        seq![seq!['.']]
    } else {
        Seq::empty()
    }
}

/// `Path::components`, each written as text (no named component is `/` or
/// `.`, so the lead markers are told apart).
pub open spec fn all_components(s: Seq<char>) -> Seq<Seq<char>> {
    lead_components(s) + components(s)
}

/// `Path::starts_with`: the components of `base` begin those of `path`.
pub open spec fn path_starts_with(path: Seq<char>, base: Seq<char>) -> bool {
    let p = all_components(path);
    let b = all_components(base);
    b.len() <= p.len() && p.take(b.len() as int) == b
}

/// Some component of the path is `..`.
pub open spec fn has_parent_dir(s: Seq<char>) -> bool {
    exists|i: int| 0 <= i < components(s).len() && is_parent_dir(#[trigger] components(s)[i])
}

/// `Path::components` of `v`, as text.
pub fn all_components_exec(v: &[char]) -> (r: Vec<Vec<char>>)
    ensures
        deep(r@) == all_components(v@),
{
    let mut out: Vec<Vec<char>> = Vec::new();
    if v.len() > 0 && v[0] == '/' {
        let mut w: Vec<char> = Vec::new();
        w.push('/');
        assert(w@ =~= seq!['/']);
        out.push(w);
        assert(deep(out@) =~= seq![seq!['/']]);
    } else if (v.len() == 1 && v[0] == '.') || (v.len() >= 2 && v[0] == '.' && v[1] == '/') {
        let mut w: Vec<char> = Vec::new();
        w.push('.');
        assert(w@ =~= seq!['.']);
        out.push(w);
        assert(v.len() == 1 ==> v@ =~= seq!['.']);
        assert(deep(out@) =~= seq![seq!['.']]);
    } else {
        assert(v@ == seq!['.'] ==> v.len() == 1 && v@[0] == '.');
        assert(deep(out@) =~= Seq::<Seq<char>>::empty());
    }
    assert(deep(out@) == lead_components(v@));
    let named = components_exec(v);
    let ghost lead = deep(out@);
    let mut i: usize = 0;
    while i < named.len()
        invariant
            i <= named.len(),
            deep(named@) == components(v@),
            deep(out@) == lead + deep(named@).take(i as int),
        decreases named.len() - i,
    {
        let ghost before = deep(out@);
        out.push(slice_of(named[i].as_slice(), 0, named[i].len()));
        proof {
            assert(named@[i as int]@.subrange(0, named@[i as int]@.len() as int) =~= named@[i as int]@);
            assert(deep(out@) =~= before.push(deep(named@)[i as int]));
            assert(deep(named@).take(i + 1) =~= deep(named@).take(i as int).push(deep(named@)[i as int]));
        }
        i += 1;
    }
    assert(deep(named@).take(named.len() as int) =~= deep(named@));
    out
}

/// `Path::new(path).starts_with(base)`.
pub fn path_starts_with_exec(path: &[char], base: &[char]) -> (r: bool)
    ensures
        r == path_starts_with(path@, base@),
{
    let p = all_components_exec(path);
    let b = all_components_exec(base);
    if b.len() > p.len() {
        return false;
    }
    let mut i: usize = 0;
    while i < b.len()
        invariant
            i <= b.len() <= p.len(),
            deep(p@) == all_components(path@),
            deep(b@) == all_components(base@),
            forall|j: int| 0 <= j < i ==> deep(p@)[j] == deep(b@)[j],
        decreases b.len() - i,
    {
        if !crate::text::seq_equal(p[i].as_slice(), b[i].as_slice()) {
            assert(deep(p@).take(b.len() as int)[i as int] != deep(b@)[i as int]);
            return false;
        }
        i += 1;
    }
    assert(deep(p@).take(b.len() as int) =~= deep(b@));
    true
}

/// Whether some component of `v` is `..`.
pub fn has_parent_dir_exec(v: &[char]) -> (r: bool)
    ensures
        r == has_parent_dir(v@),
{
    let cs = components_exec(v);
    let mut i: usize = 0;
    while i < cs.len()
        invariant
            i <= cs.len(),
            deep(cs@) == components(v@),
            forall|j: int| 0 <= j < i ==> !is_parent_dir(#[trigger] components(v@)[j]),
        decreases cs.len() - i,
    {
        if is_parent_dir_exec(cs[i].as_slice()) {
            assert(is_parent_dir(components(v@)[i as int]));
            return true;
        }
        i += 1;
    }
    false
}

} // verus!
