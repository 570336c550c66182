//! Library-relative storage paths and the storage entry records.

use vstd::prelude::*;

use crate::error::{is_message, ApiError};
use crate::fspath::{
    has_parent_dir, has_parent_dir_exec, is_kept_piece, keep_pieces, path_starts_with,
    path_starts_with_exec,
};
use crate::library::paths::{path_join, path_join_exec};
use crate::text::{
    find_char, is_ws, lemma_find_char_at, lemma_find_char_bounds,
    append_chars, chars_is, chars_of, deep, is_ascii_alpha, is_ascii_alpha_char, join_with,
    lemma_rfind_char_bounds, replace_char, replace_char_chars, rfind_char, rfind_char_exec,
    slice_of, split_char, split_char_exec, string_of, trim, trim_chars,
};

verus! {

/// Pieces trimmed one by one.
pub open spec fn trim_all(ps: Seq<Seq<char>>) -> Seq<Seq<char>> {
    ps.map_values(|p: Seq<char>| trim(p))
}

pub open spec fn has_dotdot(ps: Seq<Seq<char>>) -> bool {
    exists|i: int| 0 <= i < ps.len() && ps[i] == seq!['.', '.']
}

/// `looks_like_windows_drive`: an ASCII letter followed by `:`.
pub open spec fn drive_like(s: Seq<char>) -> bool {
    s.len() >= 2 && s[1] == ':' && is_ascii_alpha(s[0])
}

pub enum StoragePathError {
    /// Absolute, UNC or drive-letter input.
    NotRelative,
    /// A `..` component.
    Escapes,
}

/// What `StoragePath::parse` makes of `input`: the trimmed `/`-separated
/// components without empty and `.` ones, joined by `/`.
pub open spec fn storage_parse_spec(input: Seq<char>) -> Result<Seq<char>, StoragePathError> {
    let raw = replace_char(trim(input), '\\', '/');
    let parts = trim_all(split_char(raw, '/'));
    if (raw.len() > 0 && raw[0] == '/') || drive_like(raw) {
        Err(StoragePathError::NotRelative)
    } else if has_dotdot(parts) {
        Err(StoragePathError::Escapes)
    } else {
        Ok(join_with(keep_pieces(parts), '/'))
    }
}

/// The error `StoragePath::parse` reports for each kind of rejected input.
pub open spec fn storage_error_matches(e: ApiError, kind: StoragePathError) -> bool {
    match kind {
        StoragePathError::NotRelative => is_message(e, "invalid library-relative path"@),
        StoragePathError::Escapes => is_message(e, "library path must not escape root"@),
    }
}

/// A normalized path relative to the library root: `/`-separated, no empty,
/// `.` or `..` components, no leading `/`.
#[derive(Debug, Clone, PartialEq, Eq, Hash)]
pub struct StoragePath(String);

impl View for StoragePath {
    type V = Seq<char>;

    closed spec fn view(&self) -> Seq<char> {
        self.0@
    }
}

/// `rsplit_once('/')` prefix.
pub open spec fn parent_spec(s: Seq<char>) -> Option<Seq<char>> {
    match rfind_char(s, '/') {
        Some(i) => Some(s.subrange(0, i)),
        None => None,
    }
}

/// Last `/`-separated piece of a nonempty path.
pub open spec fn file_name_spec(s: Seq<char>) -> Option<Seq<char>> {
    if s.len() == 0 {
        None
    } else {
        match rfind_char(s, '/') {
            Some(i) => Some(s.subrange(i + 1, s.len() as int)),
            None => Some(s),
        }
    }
}

/// `root` with each component of the storage path pushed onto it.
pub open spec fn local_path_spec(root: Seq<char>, comps: Seq<Seq<char>>) -> Seq<char>
    decreases comps.len(),
{
    if comps.len() == 0 {
        root
    } else {
        path_join(local_path_spec(root, comps.drop_last()), comps.last())
    }
}

/// Nonempty pieces of a storage path.
pub open spec fn nonempty_pieces(ps: Seq<Seq<char>>) -> Seq<Seq<char>>
    decreases ps.len(),
{
    if ps.len() == 0 {
        ps
    } else {
        let r = nonempty_pieces(ps.drop_last());
        if ps.last().len() > 0 {
            r.push(ps.last())
        } else {
            r
        }
    }
}

fn drive_like_exec(v: &[char]) -> (r: bool)
    ensures
        r == drive_like(v@),
{
    v.len() >= 2 && v[1] == ':' && is_ascii_alpha_char(v[0])
}

/// `parts.join("/")`.
pub fn join_slash(parts: &Vec<Vec<char>>) -> (r: Vec<char>)
    ensures
        r@ == join_with(deep(parts@), '/'),
{
    let mut out: Vec<char> = Vec::new();
    let mut i: usize = 0;
    while i < parts.len()
        invariant
            i <= parts.len(),
            out@ == join_with(deep(parts@).subrange(0, i as int), '/'),
        decreases parts.len() - i,
    {
        let ghost pre = deep(parts@).subrange(0, i as int);
        let ghost next = deep(parts@).subrange(0, i + 1);
        assert(next.drop_last() =~= pre);
        assert(next.last() == parts@[i as int]@);
        if i > 0 {
            out.push('/');
        }
        append_chars(&mut out, parts[i].as_slice());
        i += 1;
    }
    assert(deep(parts@).subrange(0, parts.len() as int) =~= deep(parts@));
    out
}

fn is_kept_exec(p: &[char]) -> (r: bool)
    ensures
        r == is_kept_piece(p@),
{
    if p.len() == 0 {
        return false;
    }
    let dot = p.len() == 1 && p[0] == '.';
    assert(dot ==> p@ =~= seq!['.']);
    assert(p@ == seq!['.'] ==> p@.len() == 1 && p@[0] == '.');
    !dot
}

fn is_dotdot_exec(p: &[char]) -> (r: bool)
    ensures
        r == (p@ == seq!['.', '.']),
{
    let r = p.len() == 2 && p[0] == '.' && p[1] == '.';
    assert(r ==> p@ =~= seq!['.', '.']);
    r
}

/// Normalize a path piece list; `Err` when a `..` piece is present.
fn normalize_pieces(v: &[char]) -> (r: Option<Vec<char>>)
    ensures
        r matches Some(s) ==> !has_dotdot(trim_all(split_char(v@, '/'))) && s@ == join_with(
            keep_pieces(trim_all(split_char(v@, '/'))),
            '/',
        ),
        r is None ==> has_dotdot(trim_all(split_char(v@, '/'))),
{
    let pieces = split_char_exec(v, '/');
    let ghost ps = trim_all(deep(pieces@));
    let mut parts: Vec<Vec<char>> = Vec::new();
    let mut i: usize = 0;
    while i < pieces.len()
        invariant
            i <= pieces.len(),
            deep(pieces@) == split_char(v@, '/'),
            ps == trim_all(deep(pieces@)),
            deep(parts@) == keep_pieces(ps.subrange(0, i as int)),
            !has_dotdot(ps.subrange(0, i as int)),
        decreases pieces.len() - i,
    {
        let part = trim_chars(pieces[i].as_slice());
        assert(part@ == ps[i as int]);
        let ghost pre = ps.subrange(0, i as int);
        let ghost next = ps.subrange(0, i + 1);
        assert(next.drop_last() =~= pre);
        if is_dotdot_exec(part.as_slice()) {
            assert(next[i as int] == seq!['.', '.']);
            assert(ps[i as int] == seq!['.', '.']);
            return None;
        }
        if is_kept_exec(part.as_slice()) {
            let ghost before = parts@;
            parts.push(part);
            assert(deep(parts@) =~= deep(before).push(next.last()));
        }
        assert(!has_dotdot(next)) by {
            if has_dotdot(next) {
                let k = choose|k: int| 0 <= k < next.len() && next[k] == seq!['.', '.'];
                if k < i {
                    assert(pre[k] == next[k]);
                }
            }
        }
        i += 1;
    }
    assert(ps.subrange(0, pieces.len() as int) =~= ps);
    Some(join_slash(&parts))
}

impl StoragePath {
    /// Parse a library-relative path: `\` is read as `/`, empty and `.`
    /// components are dropped, absolute and drive paths and `..` are rejected.
    pub fn parse(input: &str) -> (r: Result<StoragePath, ApiError>)
        ensures
            match storage_parse_spec(input@) {
                Ok(s) => r matches Ok(p) && p@ == s,
                Err(kind) => r matches Err(e) && storage_error_matches(e, kind),
            },
    {
        let v = chars_of(input);
        let t = trim_chars(v.as_slice());
        let raw = replace_char_chars(t.as_slice(), '\\', '/');
        if (raw.len() > 0 && raw[0] == '/') || drive_like_exec(raw.as_slice()) {
            return Err(ApiError::bad_request("invalid library-relative path"));
        }
        match normalize_pieces(raw.as_slice()) {
            Some(s) => Ok(StoragePath(string_of(s.as_slice()))),
            None => Err(ApiError::bad_request("library path must not escape root")),
        }
    }

    pub fn root() -> (r: StoragePath)
        ensures
            r@ == Seq::<char>::empty(),
    {
        StoragePath(String::new())
    }

    pub fn as_str(&self) -> (r: &str)
        ensures
            r@ == self@,
    {
        self.0.as_str()
    }

    pub fn is_root(&self) -> (r: bool)
        ensures
            r == (self@.len() == 0),
    {
        let v = chars_of(self.0.as_str());
        v.len() == 0
    }

    /// Everything before the last `/`, if there is one.
    pub fn parent(&self) -> (r: Option<StoragePath>)
        ensures
            r matches Some(p) ==> parent_spec(self@) == Some(p@),
            r is None ==> parent_spec(self@) is None,
    {
        let v = chars_of(self.0.as_str());
        match rfind_char_exec(v.as_slice(), '/') {
            Some(i) => {
                proof {
                    lemma_rfind_char_bounds(v@, '/');
                }
                Some(StoragePath(string_of(slice_of(v.as_slice(), 0, i).as_slice())))
            },
            None => None,
        }
    }

    /// The last component, `None` for the root.
    pub fn file_name(&self) -> (r: Option<String>)
        ensures
            r matches Some(n) ==> file_name_spec(self@) == Some(n@),
            r is None ==> file_name_spec(self@) is None,
    {
        let v = chars_of(self.0.as_str());
        if v.len() == 0 {
            return None;
        }
        match rfind_char_exec(v.as_slice(), '/') {
            Some(i) => {
                proof {
                    lemma_rfind_char_bounds(v@, '/');
                }
                Some(string_of(slice_of(v.as_slice(), i + 1, v.len()).as_slice()))
            },
            None => Some(self.0.clone()),
        }
    }

    /// `child` parsed and appended below this path.
    pub fn join(&self, child: &str) -> (r: Result<StoragePath, ApiError>)
        ensures
            match storage_parse_spec(child@) {
                Ok(c) => if self@.len() == 0 {
                    r matches Ok(p) && p@ == c
                } else if c.len() == 0 {
                    r matches Ok(p) && p@ == self@
                } else {
                    match storage_parse_spec(self@ + seq!['/'] + c) {
                        Ok(s) => r matches Ok(p) && p@ == s,
                        Err(kind) => r matches Err(e) && storage_error_matches(e, kind),
                    }
                },
                Err(kind) => r matches Err(e) && storage_error_matches(e, kind),
            },
    {
        let child = StoragePath::parse(child)?;
        if self.is_root() {
            return Ok(child);
        }
        if child.is_root() {
            return Ok(StoragePath(self.0.clone()));
        }
        let mut v = chars_of(self.0.as_str());
        v.push('/');
        let c = chars_of(child.0.as_str());
        append_chars(&mut v, c.as_slice());
        assert(v@ =~= self@ + seq!['/'] + child@);
        StoragePath::parse(string_of(v.as_slice()).as_str())
    }

    /// This path below `root` on the local file system.
    pub fn to_local_path(&self, root: &str) -> (r: String)
        ensures
            r@ == local_path_spec(root@, nonempty_pieces(split_char(self@, '/'))),
    {
        let v = chars_of(self.0.as_str());
        let pieces = split_char_exec(v.as_slice(), '/');
        let mut out = chars_of(root);
        let ghost ps = deep(pieces@);
        let ghost mut kept: Seq<Seq<char>> = Seq::empty();
        let mut i: usize = 0;
        while i < pieces.len()
            invariant
                i <= pieces.len(),
                ps == deep(pieces@),
                ps == split_char(v@, '/'),
                v@ == self@,
                kept == nonempty_pieces(ps.subrange(0, i as int)),
                out@ == local_path_spec(root@, kept),
            decreases pieces.len() - i,
        {
            let ghost pre = ps.subrange(0, i as int);
            let ghost next = ps.subrange(0, i + 1);
            assert(next.drop_last() =~= pre);
            assert(next.last() == pieces@[i as int]@);
            if pieces[i].len() > 0 {
                out = path_join_exec(out.as_slice(), pieces[i].as_slice());
                proof {
                    let k2 = kept.push(next.last());
                    assert(k2.drop_last() =~= kept);
                    kept = k2;
                }
            }
            i += 1;
        }
        assert(ps.subrange(0, pieces.len() as int) =~= ps);
        string_of(out.as_slice())
    }
}

#[derive(Debug, Clone, Copy, PartialEq, Eq, Structural)]
pub enum StorageEntryKind {
    File,
    Directory,
}

#[derive(Debug, Clone, PartialEq, Eq)]
pub struct StorageEntry {
    pub name: String,
    pub path: StoragePath,
    pub kind: StorageEntryKind,
    pub size: Option<u64>,
    /// `YYYY-MM-DD HH:MM:SS` from listing when available (SMB/local).
    pub mtime: Option<String>,
}

#[derive(Debug, Clone, PartialEq, Eq)]
pub struct StorageMetadata {
    pub kind: StorageEntryKind,
    pub size: u64,
    pub mtime: Option<String>,
}

/// Library storage on the local file system below `root`.
#[derive(Debug, Clone)]
pub struct LocalStorage {
    root: String,
}

impl LocalStorage {
    pub fn new(root: &str) -> (r: LocalStorage)
        ensures
            r.root_spec() == root@,
    {
        LocalStorage { root: root.to_owned() }
    }

    pub closed spec fn root_spec(&self) -> Seq<char> {
        self.root@
    }

    pub fn root(&self) -> (r: &str)
        ensures
            r@ == self.root_spec(),
    {
        self.root.as_str()
    }

    /// Where `path` lives on the local file system.
    pub fn abs(&self, path: &StoragePath) -> (r: String)
        ensures
            r@ == local_path_spec(self.root_spec(), nonempty_pieces(split_char(path@, '/'))),
    {
        path.to_local_path(self.root.as_str())
    }
}

/// Whether an absolute local path may be used for a storage root: no `..`
/// component, and inside the root (component-wise); the message of the
/// refusal otherwise.
pub open spec fn local_child_spec(root: Seq<char>, path: Seq<char>) -> Result<(), Seq<char>> {
    if has_parent_dir(path) {
        Err("invalid library path"@)
    } else if !path_starts_with(path, root) {
        Err("library path outside root"@)
    } else {
        Ok(())
    }
}

pub fn ensure_local_child(root: &str, path: &str) -> (r: Result<(), ApiError>)
    ensures
        match local_child_spec(root@, path@) {
            Ok(()) => r is Ok,
            Err(m) => r matches Err(e) && is_message(e, m),
        },
{
    let p = chars_of(path);
    if has_parent_dir_exec(p.as_slice()) {
        return Err(ApiError::bad_request("invalid library path"));
    }
    let base = chars_of(root);
    if !path_starts_with_exec(p.as_slice(), base.as_slice()) {
        return Err(ApiError::bad_request("library path outside root"));
    }
    Ok(())
}

/// A share path relative to the library root on that share: empty for the
/// root itself, the rest below `root/`, else the path unchanged (an empty
/// root changes nothing). Both paths are taken in the normalized remote
/// form (`/`-separated, no leading or trailing `/`).
pub open spec fn smb_relative_spec(root: Seq<char>, path: Seq<char>) -> Seq<char> {
    if root.len() == 0 {
        path
    } else if path == root {
        Seq::empty()
    } else if crate::text::starts_with(path, root.push('/')) {
        path.skip(root.len() as int + 1)
    } else {
        path
    }
}

pub fn smb_entry_path_relative_to_library_root(library_root: &str, entry_path: &str) -> (r: String)
    ensures
        r@ == smb_relative_spec(library_root@, entry_path@),
{
    let root = chars_of(library_root);
    let path = chars_of(entry_path);
    if root.len() == 0 {
        return string_of(path.as_slice());
    }
    if crate::text::seq_equal(path.as_slice(), root.as_slice()) {
        return String::new();
    }
    let mut prefix = slice_of(root.as_slice(), 0, root.len());
    assert(root@.subrange(0, root.len() as int) =~= root@);
    prefix.push('/');
    if crate::text::starts_with_chars(path.as_slice(), prefix.as_slice()) {
        let rest = slice_of(path.as_slice(), prefix.len(), path.len());
        assert(rest@ =~= path@.skip(root@.len() as int + 1));
        return string_of(rest.as_slice());
    }
    string_of(path.as_slice())
}

/// The share path of a storage path under an SMB library root (both as the
/// SMB client normalizes them): the root and the relative path joined by
/// `/`, either alone when the other is empty.
pub open spec fn smb_location_spec(root: Seq<char>, rel: Seq<char>) -> Seq<char> {
    if root.len() == 0 {
        rel
    } else if rel.len() == 0 {
        root
    } else {
        root + seq!['/'] + rel
    }
}

pub fn smb_location_path(root: &str, rel: &str) -> (r: String)
    ensures
        r@ == smb_location_spec(root@, rel@),
{
    let rv = chars_of(root);
    let pv = chars_of(rel);
    if rv.len() == 0 {
        return string_of(pv.as_slice());
    }
    if pv.len() == 0 {
        return string_of(rv.as_slice());
    }
    let mut out = rv;
    out.push('/');
    append_chars(&mut out, pv.as_slice());
    string_of(out.as_slice())
}

/// A storage path placed under an SMB library root maps back to itself
/// when the share path is read relative to the root.
pub proof fn lemma_smb_location_round_trip(root: Seq<char>, rel: Seq<char>)
    ensures
        smb_relative_spec(root, smb_location_spec(root, rel)) == rel,
{
    if root.len() > 0 && rel.len() > 0 {
        let path = root + seq!['/'] + rel;
        assert(path.subrange(0, (root.len() + 1) as int) =~= root.push('/'));
        assert(path.skip(root.len() as int + 1) =~= rel);
        assert(path.len() != root.len());
    }
}


/// A component of a normalized storage path: kept (nonempty, not `.`), not
/// `..`, trimmed, and free of `/` and `\`.
pub open spec fn clean_piece(p: Seq<char>) -> bool {
    &&& is_kept_piece(p)
    &&& p != seq!['.', '.']
    &&& trim(p) == p
    &&& !is_ws(p[0])
    &&& !is_ws(p.last())
    &&& forall|i: int| 0 <= i < p.len() ==> p[i] != '/' && p[i] != '\\'
}

/// No character of any piece is `a` or `b`.
pub open spec fn pieces_free(ps: Seq<Seq<char>>, a: char, b: char) -> bool {
    forall|k: int, i: int| 0 <= k < ps.len() && 0 <= i < ps[k].len() ==> #[trigger] ps[k][i] != a && ps[k][i] != b
}

proof fn lemma_split_pieces_free(s: Seq<char>, sep: char, bad: char)
    requires
        forall|j: int| 0 <= j < s.len() ==> s[j] != bad,
    ensures
        pieces_free(split_char(s, sep), sep, bad),
    decreases s.len(),
{
    lemma_find_char_bounds(s, sep);
    let sp = split_char(s, sep);
    match find_char(s, sep) {
        Some(i0) => {
            let rest = s.subrange(i0 + 1, s.len() as int);
            assert forall|j: int| 0 <= j < rest.len() implies rest[j] != bad by {
                assert(rest[j] == s[i0 + 1 + j]);
            }
            lemma_split_pieces_free(rest, sep, bad);
            let head = s.subrange(0, i0);
            assert(sp == seq![head] + split_char(rest, sep));
            assert forall|k: int, i: int| 0 <= k < sp.len() && 0 <= i < sp[k].len() implies #[trigger] sp[k][i] != sep
                && sp[k][i] != bad by {
                if k == 0 {
                    assert(sp[k] == head);
                    assert(head[i] == s[i]);
                } else {
                    assert(sp[k] == split_char(rest, sep)[k - 1]);
                }
            }
        },
        None => {
            assert(sp == seq![s]);
            assert forall|k: int, i: int| 0 <= k < sp.len() && 0 <= i < sp[k].len() implies #[trigger] sp[k][i] != sep
                && sp[k][i] != bad by {
                assert(sp[k] == s);
            }
        },
    }
}

/// Splitting `a`, `/`, `b` gives the pieces of `a` then those of `b`.
proof fn lemma_split_concat(a: Seq<char>, b: Seq<char>)
    ensures
        split_char(a.push('/') + b, '/') == split_char(a, '/') + split_char(b, '/'),
    decreases a.len(),
{
    let x = a.push('/') + b;
    lemma_find_char_bounds(a, '/');
    match find_char(a, '/') {
        Some(i) => {
            assert forall|j: int| 0 <= j < i implies x[j] != '/' by {
                assert(x[j] == a[j]);
            }
            assert(x[i] == a[i]);
            lemma_find_char_at(x, '/', i);
            let a2 = a.subrange(i + 1, a.len() as int);
            assert(x.subrange(i + 1, x.len() as int) =~= a2.push('/') + b);
            assert(x.subrange(0, i) =~= a.subrange(0, i));
            lemma_split_concat(a2, b);
            assert(split_char(x, '/') =~= split_char(a, '/') + split_char(b, '/'));
        },
        None => {
            let k = a.len() as int;
            assert forall|j: int| 0 <= j < k implies x[j] != '/' by {
                assert(x[j] == a[j]);
            }
            lemma_find_char_at(x, '/', k);
            assert(x.subrange(0, k) =~= a);
            assert(x.subrange(k + 1, x.len() as int) =~= b);
            assert(split_char(x, '/') =~= split_char(a, '/') + split_char(b, '/'));
        },
    }
}

/// A piece without `/` splits into itself.
proof fn lemma_split_single(p: Seq<char>)
    requires
        forall|i: int| 0 <= i < p.len() ==> p[i] != '/',
    ensures
        split_char(p, '/') == seq![p],
{
    lemma_find_char_at(p, '/', p.len() as int);
}

/// Pieces without `/`, joined by `/`, split back into the pieces.
proof fn lemma_split_join(ps: Seq<Seq<char>>)
    requires
        ps.len() > 0,
        pieces_free(ps, '/', '/'),
    ensures
        split_char(join_with(ps, '/'), '/') == ps,
    decreases ps.len(),
{
    let last = ps.last();
    assert forall|i: int| 0 <= i < last.len() implies last[i] != '/' by {
        assert(ps[ps.len() - 1][i] != '/');
    }
    lemma_split_single(last);
    if ps.len() == 1 {
        assert(seq![last] =~= ps);
    } else {
        let init = ps.drop_last();
        assert forall|k: int, i: int| 0 <= k < init.len() && 0 <= i < init[k].len() implies #[trigger] init[k][i] != '/'
            && init[k][i] != '/' by {
            assert(init[k] == ps[k]);
        }
        lemma_split_join(init);
        lemma_split_concat(join_with(init, '/'), last);
        assert(init + seq![last] =~= ps);
    }
}

/// Pieces that hold no `\` join into a text that holds none.
proof fn lemma_join_free(ps: Seq<Seq<char>>)
    requires
        pieces_free(ps, '\\', '\\'),
    ensures
        forall|j: int| 0 <= j < join_with(ps, '/').len() ==> join_with(ps, '/')[j] != '\\',
    decreases ps.len(),
{
    if ps.len() == 1 {
        assert forall|j: int| 0 <= j < ps[0].len() implies ps[0][j] != '\\' by {
            assert(ps[0][j] != '\\');
        }
    } else if ps.len() >= 2 {
        let init = ps.drop_last();
        let last = ps.last();
        assert forall|k: int, i: int| 0 <= k < init.len() && 0 <= i < init[k].len() implies #[trigger] init[k][i] != '\\'
            && init[k][i] != '\\' by {
            assert(init[k] == ps[k]);
        }
        lemma_join_free(init);
        let j0 = join_with(init, '/');
        let s = join_with(ps, '/');
        assert forall|j: int| 0 <= j < s.len() implies s[j] != '\\' by {
            if j < j0.len() {
                assert(s[j] == j0[j]);
            } else if j > j0.len() {
                assert(s[j] == last[j - j0.len() - 1]);
                assert(ps[ps.len() - 1][j - j0.len() - 1] != '\\');
            }
        }
    }
}

/// A join of pieces whose first is nonempty starts with that piece's first
/// character.
proof fn lemma_join_first(ps: Seq<Seq<char>>)
    requires
        ps.len() > 0,
        ps[0].len() > 0,
    ensures
        join_with(ps, '/').len() > 0,
        join_with(ps, '/')[0] == ps[0][0],
    decreases ps.len(),
{
    if ps.len() >= 2 {
        let init = ps.drop_last();
        lemma_join_first(init);
    }
}

/// The last `/` of a join of two or more `/`-free pieces is the one before
/// the last piece.
proof fn lemma_rfind_join(ps: Seq<Seq<char>>)
    requires
        ps.len() >= 2,
        pieces_free(ps, '/', '/'),
    ensures
        rfind_char(join_with(ps, '/'), '/') == Some(join_with(ps.drop_last(), '/').len() as int),
{
    let s = join_with(ps, '/');
    let k = join_with(ps.drop_last(), '/').len() as int;
    let last = ps.last();
    assert(s[k] == '/');
    lemma_rfind_char_bounds(s, '/');
    assert forall|j: int| k < j < s.len() implies s[j] != '/' by {
        assert(s[j] == last[j - k - 1]);
        assert(ps[ps.len() - 1][j - k - 1] != '/');
    }
}

proof fn lemma_keep_pieces_from(ps: Seq<Seq<char>>)
    ensures
        forall|k: int| 0 <= k < keep_pieces(ps).len() ==> is_kept_piece(#[trigger] keep_pieces(ps)[k]) && exists|j: int|
            0 <= j < ps.len() && keep_pieces(ps)[k] == ps[j],
    decreases ps.len(),
{
    if ps.len() > 0 {
        let init = ps.drop_last();
        lemma_keep_pieces_from(init);
        let r = keep_pieces(init);
        let out = keep_pieces(ps);
        assert forall|k: int| 0 <= k < out.len() implies is_kept_piece(#[trigger] out[k]) && exists|j: int|
            0 <= j < ps.len() && out[k] == ps[j] by {
            if k < r.len() {
                assert(out[k] == r[k]);
                let j = choose|j: int| 0 <= j < init.len() && r[k] == init[j];
                assert(init[j] == ps[j]);
            } else {
                assert(out[k] == ps[ps.len() - 1]);
            }
        }
    }
}

proof fn lemma_keep_all(ps: Seq<Seq<char>>)
    requires
        forall|k: int| 0 <= k < ps.len() ==> is_kept_piece(#[trigger] ps[k]),
    ensures
        keep_pieces(ps) == ps,
    decreases ps.len(),
{
    if ps.len() > 0 {
        let init = ps.drop_last();
        assert forall|k: int| 0 <= k < init.len() implies is_kept_piece(#[trigger] init[k]) by {
            assert(init[k] == ps[k]);
        }
        lemma_keep_all(init);
        assert(is_kept_piece(ps[ps.len() - 1]));
        assert(init.push(ps.last()) =~= ps);
    }
}

/// The pieces of a parsed path.
pub open spec fn parsed_pieces(input: Seq<char>) -> Seq<Seq<char>> {
    keep_pieces(trim_all(split_char(replace_char(trim(input), '\\', '/'), '/')))
}

/// A parsed path is its clean pieces joined by `/`.
proof fn lemma_parsed_pieces(input: Seq<char>)
    requires
        storage_parse_spec(input) is Ok,
    ensures
        storage_parse_spec(input) == Ok::<Seq<char>, StoragePathError>(join_with(parsed_pieces(input), '/')),
        forall|k: int| 0 <= k < parsed_pieces(input).len() ==> clean_piece(#[trigger] parsed_pieces(input)[k]),
{
    let raw = replace_char(trim(input), '\\', '/');
    let sp = split_char(raw, '/');
    let parts = trim_all(sp);
    let ps = keep_pieces(parts);
    assert forall|j: int| 0 <= j < raw.len() implies raw[j] != '\\' by {}
    lemma_split_pieces_free(raw, '/', '\\');
    lemma_keep_pieces_from(parts);
    assert forall|k: int| 0 <= k < ps.len() implies clean_piece(#[trigger] ps[k]) by {
        let j = choose|j: int| 0 <= j < parts.len() && ps[k] == parts[j];
        let p = ps[k];
        assert(p == trim(sp[j]));
        crate::text::lemma_trim_idempotent(sp[j]);
        crate::text::lemma_trim_chars_from(sp[j]);
        assert forall|i: int| 0 <= i < p.len() implies p[i] != '/' && p[i] != '\\' by {
            let m = choose|m: int| 0 <= m < sp[j].len() && sp[j][m] == trim(sp[j])[i];
            assert(sp[j][m] != '/' && sp[j][m] != '\\');
        }
        assert(!has_dotdot(parts));
        assert(parts[j] != seq!['.', '.']);
    }
}

/// Clean pieces joined by `/` parse to themselves, unless the text starts
/// like a drive letter.
proof fn lemma_reparse(ps: Seq<Seq<char>>)
    requires
        ps.len() > 0,
        forall|k: int| 0 <= k < ps.len() ==> clean_piece(#[trigger] ps[k]),
        !drive_like(join_with(ps, '/')),
    ensures
        storage_parse_spec(join_with(ps, '/')) == Ok::<Seq<char>, StoragePathError>(join_with(ps, '/')),
{
    let s = join_with(ps, '/');
    assert(clean_piece(ps[0]));
    assert(clean_piece(ps[ps.len() - 1]));
    lemma_join_first(ps);
    assert(s.last() == ps.last().last());
    assert(crate::text::trim_start(s) == s);
    assert(crate::text::trim_end(s) == s);
    assert(pieces_free(ps, '\\', '\\')) by {
        assert forall|k: int, i: int| 0 <= k < ps.len() && 0 <= i < ps[k].len() implies #[trigger] ps[k][i] != '\\'
            && ps[k][i] != '\\' by {
            assert(clean_piece(ps[k]));
        }
    }
    assert(pieces_free(ps, '/', '/')) by {
        assert forall|k: int, i: int| 0 <= k < ps.len() && 0 <= i < ps[k].len() implies #[trigger] ps[k][i] != '/'
            && ps[k][i] != '/' by {
            assert(clean_piece(ps[k]));
        }
    }
    lemma_join_free(ps);
    assert(replace_char(s, '\\', '/') =~= s);
    lemma_split_join(ps);
    assert(trim_all(ps) =~= ps);
    assert(!has_dotdot(ps)) by {
        if has_dotdot(ps) {
            let i = choose|i: int| 0 <= i < ps.len() && ps[i] == seq!['.', '.'];
            assert(clean_piece(ps[i]));
        }
    }
    lemma_keep_all(ps);
}

/// A parsed path has no parent exactly when it holds no `/`. Where it has
/// one, the last component is a path of its own, and the parent joined
/// with it by `/` parses back to the path (when neither the path nor its
/// last component starts like a drive letter, which parsing refuses).
pub proof fn lemma_parent_join_file_name(input: Seq<char>)
    requires
        storage_parse_spec(input) is Ok,
    ensures
        ({
            let s = storage_parse_spec(input)->Ok_0;
            &&& parent_spec(s) is None <==> !s.contains('/')
            &&& parent_spec(s) matches Some(q) ==> file_name_spec(s) matches Some(n) && (!drive_like(s)
                && !drive_like(n) ==> q.len() > 0 && n.len() > 0 && storage_parse_spec(n) == Ok::<
                Seq<char>,
                StoragePathError,
            >(n) && storage_parse_spec(q + seq!['/'] + n) == Ok::<Seq<char>, StoragePathError>(s))
        }),
{
    lemma_parsed_pieces(input);
    let ps = parsed_pieces(input);
    let s = join_with(ps, '/');
    lemma_rfind_char_bounds(s, '/');
    if ps.len() <= 1 {
        if ps.len() == 1 {
            assert(clean_piece(ps[0]));
            assert(s == ps[0]);
        }
        assert(!s.contains('/'));
    } else {
        assert(pieces_free(ps, '/', '/')) by {
            assert forall|k: int, i: int| 0 <= k < ps.len() && 0 <= i < ps[k].len() implies #[trigger] ps[k][i] != '/'
                && ps[k][i] != '/' by {
                assert(clean_piece(ps[k]));
            }
        }
        lemma_rfind_join(ps);
        let init = ps.drop_last();
        let k = join_with(init, '/').len() as int;
        let q = s.subrange(0, k);
        let n = s.subrange(k + 1, s.len() as int);
        assert(s.contains('/')) by {
            assert(s[k] == '/');
        }
        assert(q =~= join_with(init, '/'));
        assert(n =~= ps.last());
        assert(clean_piece(ps[0]));
        assert(clean_piece(ps[ps.len() - 1]));
        assert(init[0] == ps[0]);
        lemma_join_first(init);
        if !drive_like(s) && !drive_like(n) {
            assert(q + seq!['/'] + n =~= s);
            lemma_reparse(ps);
            let single = seq![n];
            assert(join_with(single, '/') == n);
            assert(clean_piece(single[0]));
            lemma_reparse(single);
        }
    }
}

} // verus!
