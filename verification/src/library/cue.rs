//! CUE sheets of an album: which sheet is shown, how its audio file is
//! described, and which paths under the library may be opened.

use vstd::prelude::*;

use crate::api::library::CueFileChoice;
use crate::error::{is_message, ApiError};
use crate::fspath::{extension_lower, extension_lower_exec, path_starts_with, path_starts_with_exec};
use crate::library::paths::{path_join, path_join_exec};
use crate::text::{chars_is, chars_of, contains_lit, contains_seq, str_is, string_of};

verus! {

/// The format of a CUE sheet's audio file, by its extension (any case).
pub open spec fn audio_format_spec(path: Seq<char>) -> Seq<char> {
    match extension_lower(path) {
        Some(e) => if e == "flac"@ {
            "flac"@
        } else if e == "wav"@ || e == "wave"@ {
            "wav"@
        } else if e == "ape"@ {
            "ape"@
        } else if e == "m4a"@ || e == "mp4"@ {
            "m4a"@
        } else if e == "wv"@ || e == "wavpack"@ {
            "wv"@
        } else {
            "unknown"@
        },
        None => "unknown"@,
    }
}

pub fn audio_format(path: &str) -> (r: String)
    ensures
        r@ == audio_format_spec(path@),
{
    let v = chars_of(path);
    let f = match extension_lower_exec(v.as_slice()) {
        Some(e) => {
            let e = e.as_slice();
            if chars_is(e, "flac") {
                "flac"
            } else if chars_is(e, "wav") || chars_is(e, "wave") {
                "wav"
            } else if chars_is(e, "ape") {
                "ape"
            } else if chars_is(e, "m4a") || chars_is(e, "mp4") {
                "m4a"
            } else if chars_is(e, "wv") || chars_is(e, "wavpack") {
                "wv"
            } else {
                "unknown"
            }
        },
        None => "unknown",
    };
    f.to_string()
}

/// `Path::join`: an absolute path replaces the base.
pub open spec fn join_spec(root: Seq<char>, rel: Seq<char>) -> Seq<char> {
    if rel.len() > 0 && rel[0] == '/' {
        rel
    } else {
        path_join(root, rel)
    }
}

/// A library-relative path joined to the root, refused when it holds `..`
/// anywhere or lands, absolute, outside the root.
pub open spec fn safe_join_spec(root: Seq<char>, rel: Seq<char>) -> Result<Seq<char>, Seq<char>> {
    let joined = join_spec(root, rel);
    if contains_seq(rel, ".."@) || (joined.len() > 0 && joined[0] == '/' && !path_starts_with(
        joined,
        root,
    )) {
        Err("path outside library"@)
    } else {
        Ok(joined)
    }
}

pub fn safe_join(root: &str, rel: &str) -> (r: Result<String, ApiError>)
    ensures
        match safe_join_spec(root@, rel@) {
            Ok(p) => r matches Ok(s) && s@ == p,
            Err(m) => r matches Err(e) && is_message(e, m),
        },
{
    let base = chars_of(root);
    let r = chars_of(rel);
    let joined = if r.len() > 0 && r[0] == '/' {
        r.clone()
    } else {
        path_join_exec(base.as_slice(), r.as_slice())
    };
    if contains_lit(r.as_slice(), "..") || (joined.len() > 0 && joined[0] == '/'
        && !path_starts_with_exec(joined.as_slice(), base.as_slice())) {
        return Err(ApiError::bad_request("path outside library"));
    }
    Ok(string_of(joined.as_slice()))
}

/// Whether an album has CUE sheets: it has a directory and listing it found
/// at least one.
pub fn album_has_cue_files(discovered: Option<Result<Vec<String>, ApiError>>) -> (r: bool)
    ensures
        r == (discovered matches Some(Ok(files)) && files@.len() > 0),
{
    match discovered {
        Some(Ok(files)) => files.len() > 0,
        _ => false,
    }
}

/// The sheet shown for an album: the requested one when the album has it,
/// else the first; an album without sheets is an error.
pub open spec fn chosen_cue_spec(files: Seq<Seq<char>>, query: Option<Seq<char>>) -> Result<
    Seq<char>,
    Seq<char>,
> {
    if files.len() == 0 {
        Err("album has no CUE files"@)
    } else {
        match query {
            Some(q) => if files.contains(q) {
                Ok(q)
            } else {
                Ok(files[0])
            },
            None => Ok(files[0]),
        }
    }
}

pub open spec fn texts(v: Seq<String>) -> Seq<Seq<char>> {
    v.map_values(|s: String| s@)
}

pub fn choose_cue_file(cue_files: &Vec<String>, query: Option<&str>) -> (r: Result<String, ApiError>)
    ensures
        match chosen_cue_spec(
            texts(cue_files@),
            match query {
                Some(q) => Some(q@),
                None => None,
            },
        ) {
            Ok(p) => r matches Ok(s) && s@ == p,
            Err(m) => r matches Err(e) && is_message(e, m),
        },
{
    if cue_files.len() == 0 {
        return Err(ApiError::Message("album has no CUE files".to_string()));
    }
    assert(texts(cue_files@)[0] == cue_files@[0]@);
    if let Some(q) = query {
        let mut i: usize = 0;
        while i < cue_files.len()
            invariant
                i <= cue_files.len(),
                cue_files.len() > 0,
                query == Some(q),
                forall|j: int| 0 <= j < i ==> texts(cue_files@)[j] != q@,
            decreases cue_files.len() - i,
        {
            if str_is(cue_files[i].as_str(), q) {
                assert(texts(cue_files@)[i as int] == q@);
                return Ok(q.to_string());
            }
            i += 1;
        }
        assert(!texts(cue_files@).contains(q@));
    }
    Ok(cue_files[0].clone())
}

/// The sheets listed for an album, the chosen one marked.
pub fn cue_file_choices(cue_files: Vec<String>, selected: &str) -> (r: Vec<CueFileChoice>)
    ensures
        r@.len() == cue_files@.len(),
        forall|i: int|
            0 <= i < r@.len() ==> (#[trigger] r@[i]).path@ == cue_files@[i]@ && r@[i].selected
                == (cue_files@[i]@ == selected@),
{
    let mut out: Vec<CueFileChoice> = Vec::new();
    let mut i: usize = 0;
    while i < cue_files.len()
        invariant
            i <= cue_files.len(),
            out@.len() == i,
            forall|j: int|
                0 <= j < i ==> (#[trigger] out@[j]).path@ == cue_files@[j]@ && out@[j].selected
                    == (cue_files@[j]@ == selected@),
        decreases cue_files.len() - i,
    {
        let path = cue_files[i].clone();
        let sel = str_is(path.as_str(), selected);
        out.push(CueFileChoice { path, selected: sel });
        i += 1;
    }
    out
}

} // verus!
