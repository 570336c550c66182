//! Creating a directory inside the local library root one component at a
//! time without leaving the root through a symlink: the decision taken at
//! each component, given what the file system reports of it.

use vstd::prelude::*;

use crate::error::{is_message, ApiError};
use crate::fspath::{path_starts_with, path_starts_with_exec};
use crate::text::{chars_of, deep, split_char, split_char_exec, string_of};

verus! {

/// The non-empty pieces of a `/`-separated path, in order.
pub open spec fn walk_pieces(ps: Seq<Seq<char>>) -> Seq<Seq<char>>
    decreases ps.len(),
{
    if ps.len() == 0 {
        ps
    } else {
        let r = walk_pieces(ps.drop_last());
        if ps.last().len() > 0 {
            r.push(ps.last())
        } else {
            r
        }
    }
}

/// The components a directory walk visits for a storage path.
pub fn walk_components(path: &str) -> (r: Vec<String>)
    ensures
        r@.map_values(|s: String| s@) == walk_pieces(split_char(path@, '/')),
{
    let pieces = split_char_exec(chars_of(path).as_slice(), '/');
    let ghost ps = split_char(path@, '/');
    assert(deep(pieces@) == ps);
    let mut out: Vec<String> = Vec::new();
    let mut i: usize = 0;
    while i < pieces.len()
        invariant
            i <= pieces.len(),
            deep(pieces@) == ps,
            out@.map_values(|s: String| s@) == walk_pieces(ps.take(i as int)),
        decreases pieces.len() - i,
    {
        let ghost before = out@;
        assert(ps.take(i + 1).drop_last() =~= ps.take(i as int));
        assert(pieces@[i as int]@ == ps[i as int]);
        if pieces[i].len() > 0 {
            out.push(string_of(pieces[i].as_slice()));
            assert(out@.map_values(|s: String| s@) =~= before.map_values(|s: String| s@).push(ps[i as int]));
        }
        i += 1;
    }
    assert(ps.take(i as int) =~= ps);
    out
}

/// What the file system reports of the next component of the walk.
pub enum ComponentState {
    /// A symlink, with its canonical target and whether that is a directory.
    Symlink { canonical: String, canonical_is_dir: bool },
    Directory,
    NotDirectory,
    Missing,
}

/// What the walk does at a component.
pub enum WalkStep {
    /// Go on from this path.
    Continue(String),
    /// Create the component, then go on from it.
    Create,
    Refuse(ApiError),
}

/// The decision at one component of the walk under `root` (canonical):
/// a symlink is followed only to a directory inside the root; an existing
/// directory is entered; anything else but a missing entry is refused.
pub fn contained_walk_step(root: &str, cursor: &str, state: ComponentState) -> (r: WalkStep)
    ensures
        state matches ComponentState::Symlink { canonical, canonical_is_dir } ==> (
        !path_starts_with(canonical@, root@) ==> (r matches WalkStep::Refuse(e) && is_message(
            e,
            "library path outside root"@,
        ))),
        state matches ComponentState::Symlink { canonical, canonical_is_dir } ==> ((path_starts_with(
            canonical@,
            root@,
        ) && !canonical_is_dir) ==> (r matches WalkStep::Refuse(e) && is_message(
            e,
            "storage path is not a directory"@,
        ))),
        state matches ComponentState::Symlink { canonical, canonical_is_dir } ==> ((path_starts_with(
            canonical@,
            root@,
        ) && canonical_is_dir) ==> (r matches WalkStep::Continue(c) && c@ == canonical@)),
        state is Directory ==> (r matches WalkStep::Continue(c) && c@ == cursor@),
        state is NotDirectory ==> (r matches WalkStep::Refuse(e) && is_message(
            e,
            "storage path is not a directory"@,
        )),
        state is Missing ==> r is Create,
{
    match state {
        ComponentState::Symlink { canonical, canonical_is_dir } => {
            let inside = path_starts_with_exec(chars_of(canonical.as_str()).as_slice(), chars_of(root).as_slice());
            if !inside {
                WalkStep::Refuse(ApiError::bad_request("library path outside root"))
            } else if !canonical_is_dir {
                WalkStep::Refuse(ApiError::bad_request("storage path is not a directory"))
            } else {
                WalkStep::Continue(canonical)
            }
        },
        ComponentState::Directory => WalkStep::Continue(string_of(chars_of(cursor).as_slice())),
        ComponentState::NotDirectory => WalkStep::Refuse(ApiError::bad_request("storage path is not a directory")),
        ComponentState::Missing => WalkStep::Create,
    }
}

/// After a create that found the entry already there: it must be a
/// directory.
pub fn check_raced_entry(is_dir: bool) -> (r: Result<(), ApiError>)
    ensures
        is_dir <==> r is Ok,
        !is_dir ==> (r matches Err(e) && is_message(e, "storage path is not a directory"@)),
{
    if is_dir {
        Ok(())
    } else {
        Err(ApiError::bad_request("storage path is not a directory"))
    }
}

/// The directory reached must still lie inside the root once resolved.
pub fn check_contained(root: &str, canonical: &str) -> (r: Result<(), ApiError>)
    ensures
        path_starts_with(canonical@, root@) <==> r is Ok,
        !path_starts_with(canonical@, root@) ==> (r matches Err(e) && is_message(
            e,
            "library path outside root"@,
        )),
{
    if path_starts_with_exec(chars_of(canonical).as_slice(), chars_of(root).as_slice()) {
        Ok(())
    } else {
        Err(ApiError::bad_request("library path outside root"))
    }
}

} // verus!
