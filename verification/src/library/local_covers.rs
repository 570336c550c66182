//! The cover of an album directory on local disk, chosen from the names of
//! the files in it.

use vstd::prelude::*;

use crate::library::covers::{
    cover_candidate_ext, cover_candidate_ext_spec, contains_album_title_tokens, first_by_name,
    first_min_index, any_set, is_album_cover_filename, is_album_cover_filename_spec,
    mentions_album_spec,
};
use crate::text::{
    append_chars, ascii_lower, ascii_lower_chars, chars_is, chars_of, deep, replace_char,
    replace_char_chars, lemma_rfind_char_bounds, rfind_char, rfind_char_exec, slice_of, str_to_string, string_of, trim, trim_chars,
    trim_end_char, trim_end_char_chars,
};

verus! {

/// The album directory as cover discovery reads it: trimmed, without
/// trailing slashes, with backslashes as slashes.
pub open spec fn discovery_rel_spec(dir: Seq<char>) -> Seq<char> {
    replace_char(trim_end_char(trim(dir), '/'), '\\', '/')
}

/// The album directory cover discovery looks in; `None` when it is empty.
pub fn album_rel_for_discovery(album_rel_dir: &str) -> (r: Option<String>)
    ensures
        discovery_rel_spec(album_rel_dir@).len() == 0 <==> r is None,
        r matches Some(s) ==> s@ == discovery_rel_spec(album_rel_dir@),
{
    let v = chars_of(album_rel_dir);
    let t = trim_chars(v.as_slice());
    let e = trim_end_char_chars(t.as_slice(), '/');
    let rel = replace_char_chars(e.as_slice(), '\\', '/');
    if rel.len() == 0 {
        return None;
    }
    Some(string_of(rel.as_slice()))
}

/// File names that are an album's cover as they stand, in any ASCII case.
pub open spec fn local_cover_name(name: Seq<char>) -> bool {
    let l = ascii_lower(name);
    l == "cover.jpg"@ || l == "cover.jpeg"@ || l == "cover.png"@ || l == "cover.webp"@ || l
        == "cover.bmp"@ || l == "folder.jpg"@
}

pub open spec fn local_name_mask(names: Seq<Seq<char>>) -> Seq<bool> {
    names.map_values(|n: Seq<char>| local_cover_name(n))
}

pub open spec fn cover_filename_mask(names: Seq<Seq<char>>) -> Seq<bool> {
    names.map_values(|n: Seq<char>| is_album_cover_filename_spec(n))
}

/// Images whose name mentions the album title.
pub open spec fn title_image_mask(names: Seq<Seq<char>>, title: Seq<char>) -> Seq<bool> {
    names.map_values(|n: Seq<char>| cover_candidate_ext_spec(n) is Some && mentions_album_spec(n, title))
}

/// Entry `i` is the first flagged one in listing order.
pub open spec fn first_flagged(mask: Seq<bool>, i: int) -> bool {
    &&& 0 <= i < mask.len()
    &&& mask[i]
    &&& forall|j: int| 0 <= j < i ==> !#[trigger] mask[j]
}

/// The title of an album directory: its last path segment.
pub open spec fn album_dir_title(rel: Seq<char>) -> Seq<char> {
    match rfind_char(rel, '/') {
        Some(k) => rel.skip(k + 1),
        None => rel,
    }
}

/// A path under an album directory.
pub open spec fn under_album(rel: Seq<char>, name: Seq<char>) -> Seq<char> {
    rel + "/"@ + name
}

/// What cover discovery finds in an album directory.
pub enum LocalCoverChoice {
    /// A cover file already there: its path under the library root.
    Existing(String),
    /// An image named after the album, to be renamed `cover.<ext>`; `rel`
    /// is the renamed file's path under the library root.
    Rename { from: String, to: String, rel: String },
    Missing,
}

/// The choice among the files of an album directory (named in listing
/// order): a file with a cover's name, the first in listing order; else a
/// `cover.<image>` or `folder.jpg` name, the first by name; else an image
/// whose name mentions the album title, the first by name, renamed to
/// `cover.` and its extension; else none.
pub open spec fn local_choice_is(rel: Seq<char>, names: Seq<Seq<char>>, c: LocalCoverChoice) -> bool {
    if any_set(local_name_mask(names)) {
        exists|i: int|
            first_flagged(local_name_mask(names), i) && #[trigger] under_album(rel, names[i])
                == (match c {
                LocalCoverChoice::Existing(p) => p@,
                _ => Seq::empty(),
            }) && c is Existing
    } else if any_set(cover_filename_mask(names)) {
        exists|i: int|
            first_by_name(names, cover_filename_mask(names), i) && #[trigger] under_album(
                rel,
                names[i],
            ) == (match c {
                LocalCoverChoice::Existing(p) => p@,
                _ => Seq::empty(),
            }) && c is Existing
    } else if any_set(title_image_mask(names, album_dir_title(rel))) {
        exists|i: int|
            first_by_name(names, title_image_mask(names, album_dir_title(rel)), i) && #[trigger]
            renamed_as(c, rel, names[i])
    } else {
        c is Missing
    }
}

pub open spec fn renamed_as(c: LocalCoverChoice, rel: Seq<char>, from: Seq<char>) -> bool {
    match c {
        LocalCoverChoice::Rename { from: f, to, rel: r } => {
            &&& f@ == from
            &&& cover_candidate_ext_spec(from) matches Some(e) && to@ == "cover."@ + e
            &&& r@ == under_album(rel, to@)
        },
        _ => false,
    }
}

fn names_chars(names: &Vec<String>) -> (r: Vec<Vec<char>>)
    ensures
        deep(r@) == names@.map_values(|s: String| s@),
{
    let mut out: Vec<Vec<char>> = Vec::new();
    let mut i: usize = 0;
    while i < names.len()
        invariant
            i <= names.len(),
            deep(out@) == names@.take(i as int).map_values(|s: String| s@),
        decreases names.len() - i,
    {
        let ghost before = out@;
        out.push(chars_of(names[i].as_str()));
        proof {
            assert(deep(out@) =~= deep(before).push(names@[i as int]@));
            assert(names@.take(i + 1).map_values(|s: String| s@) =~= names@.take(i as int).map_values(
                |s: String| s@,
            ).push(names@[i as int]@));
        }
        i += 1;
    }
    assert(names@.take(i as int) =~= names@);
    out
}

fn is_local_cover_name(name: &[char]) -> (r: bool)
    ensures
        r == local_cover_name(name@),
{
    let l = ascii_lower_chars(name);
    let s = l.as_slice();
    chars_is(s, "cover.jpg") || chars_is(s, "cover.jpeg") || chars_is(s, "cover.png") || chars_is(
        s,
        "cover.webp",
    ) || chars_is(s, "cover.bmp") || chars_is(s, "folder.jpg")
}

fn under_album_exec(rel: &[char], name: &[char]) -> (r: String)
    ensures
        r@ == under_album(rel@, name@),
{
    let mut v: Vec<char> = Vec::new();
    append_chars(&mut v, rel);
    v.push('/');
    append_chars(&mut v, name);
    proof {
        reveal_strlit("/");
        assert(v@ =~= under_album(rel@, name@));
    }
    string_of(v.as_slice())
}

/// The cover of album directory `album_rel` among the names of its files,
/// in listing order (`discover_album_cover_rel` once the directory is read).
pub fn choose_local_cover(album_rel: &str, names: &Vec<String>) -> (r: LocalCoverChoice)
    ensures
        local_choice_is(album_rel@, names@.map_values(|s: String| s@), r),
{
    let ghost ns = names@.map_values(|s: String| s@);
    let rel = chars_of(album_rel);
    let cs = names_chars(names);
    assert(deep(cs@) == ns);
    let n = cs.len();
    // A file already named as a cover, first in listing order.
    let mut i: usize = 0;
    while i < n
        invariant
            n == cs.len(),
            deep(cs@) == ns,
            ns == names@.map_values(|s: String| s@),
            rel@ == album_rel@,
            ns.len() == n,
            i <= n,
            forall|j: int| 0 <= j < i ==> !#[trigger] local_name_mask(ns)[j],
        decreases n - i,
    {
        if is_local_cover_name(cs[i].as_slice()) {
            let p = under_album_exec(rel.as_slice(), cs[i].as_slice());
            proof {
                assert(cs@[i as int]@ == ns[i as int]);
                assert(local_name_mask(ns)[i as int]);
                assert(first_flagged(local_name_mask(ns), i as int));
                assert(under_album(album_rel@, ns[i as int]) == p@);
            }
            return LocalCoverChoice::Existing(p);
        }
        assert(cs@[i as int]@ == ns[i as int]);
        i += 1;
    }
    assert(!any_set(local_name_mask(ns)));
    // `cover.<image>` or `folder.jpg`, first by name.
    let mut mask: Vec<bool> = Vec::new();
    let mut k: usize = 0;
    while k < n
        invariant
            n == cs.len(),
            n == names.len(),
            deep(cs@) == ns,
            ns == names@.map_values(|s: String| s@),
            k <= n,
            mask@ == cover_filename_mask(ns).take(k as int),
        decreases n - k,
    {
        let b = is_album_cover_filename(names[k].as_str());
        mask.push(b);
        assert(mask@ =~= cover_filename_mask(ns).take(k + 1));
        k += 1;
    }
    assert(mask@ =~= cover_filename_mask(ns));
    match first_min_index(&cs, &mask) {
        Some(j) => {
            let p = under_album_exec(rel.as_slice(), cs[j].as_slice());
            proof {
                assert(cs@[j as int]@ == ns[j as int]);
            }
            return LocalCoverChoice::Existing(p);
        },
        None => {},
    }
    // An image named after the album, to be renamed.
    let title = match rfind_char_exec(rel.as_slice(), '/') {
        Some(s) => {
            proof {
                lemma_rfind_char_bounds(rel@, '/');
            }
            slice_of(rel.as_slice(), s + 1, rel.len())
        },
        None => slice_of(rel.as_slice(), 0, rel.len()),
    };
    assert(title@ =~= album_dir_title(album_rel@));
    let title_s = string_of(title.as_slice());
    let mut tmask: Vec<bool> = Vec::new();
    let mut k: usize = 0;
    while k < n
        invariant
            n == cs.len(),
            n == names.len(),
            ns == names@.map_values(|s: String| s@),
            title_s@ == album_dir_title(album_rel@),
            k <= n,
            tmask@ == title_image_mask(ns, album_dir_title(album_rel@)).take(k as int),
        decreases n - k,
    {
        let b = cover_candidate_ext(names[k].as_str()).is_some() && contains_album_title_tokens(
            names[k].as_str(),
            title_s.as_str(),
        );
        tmask.push(b);
        assert(tmask@ =~= title_image_mask(ns, album_dir_title(album_rel@)).take(k + 1));
        k += 1;
    }
    assert(tmask@ =~= title_image_mask(ns, album_dir_title(album_rel@)));
    match first_min_index(&cs, &tmask) {
        Some(j) => {
            let from = names[j].clone();
            let ext = match cover_candidate_ext(names[j].as_str()) {
                Some(e) => e,
                None => {
                    proof {
                        assert(title_image_mask(ns, album_dir_title(album_rel@))[j as int]);
                    }
                    return LocalCoverChoice::Missing;
                },
            };
            let mut to_v = chars_of("cover.");
            let ev = chars_of(ext.as_str());
            append_chars(&mut to_v, ev.as_slice());
            let to = string_of(to_v.as_slice());
            let r = under_album_exec(rel.as_slice(), to_v.as_slice());
            let c = LocalCoverChoice::Rename { from, to, rel: r };
            proof {
                assert(cs@[j as int]@ == ns[j as int]);
                assert(renamed_as(c, album_rel@, ns[j as int]));
            }
            c
        },
        None => LocalCoverChoice::Missing,
    }
}

/// What keeping an album's cover path up to date does first.
pub enum CoverPathStep {
    /// The stored cover still resolves to a file: it stays.
    Keep(String),
    /// Look for a cover in this album directory.
    Discover(String),
    /// Nothing to look in: the stored value stands as it is.
    Stored(Option<String>),
}

/// The first step of keeping an album's cover path current
/// (`ensure_album_cover_path`): a stored cover (trimmed, non-empty) that
/// resolves to a file stays; otherwise the album directory (trimmed,
/// non-empty) is searched; without one the stored value is returned as is.
/// `current_resolves` is whether the trimmed stored cover resolves to a
/// file under the library root.
pub fn cover_path_step(current_cover: Option<&str>, current_resolves: bool, album_path: Option<&str>) -> (r:
    CoverPathStep)
    ensures
        (current_cover matches Some(c) && trim(c@).len() > 0 && current_resolves) ==> (r matches CoverPathStep::Keep(k)
            && k@ == trim(current_cover->0@)),
        !(current_cover matches Some(c) && trim(c@).len() > 0 && current_resolves) ==> ((album_path matches Some(
            d,
        ) && trim(d@).len() > 0) ==> (r matches CoverPathStep::Discover(x) && x@ == trim(album_path->0@))),
        !(current_cover matches Some(c) && trim(c@).len() > 0 && current_resolves) ==> (!(album_path matches Some(
            d,
        ) && trim(d@).len() > 0) ==> (r matches CoverPathStep::Stored(o) && (match current_cover {
            Some(c) => o matches Some(x) && x@ == c@,
            None => o is None,
        }))),
{
    match current_cover {
        Some(c) => {
            let t = trim_chars(chars_of(c).as_slice());
            if t.len() > 0 && current_resolves {
                return CoverPathStep::Keep(string_of(t.as_slice()));
            }
        },
        None => {},
    }
    match album_path {
        Some(d) => {
            let t = trim_chars(chars_of(d).as_slice());
            if t.len() > 0 {
                return CoverPathStep::Discover(string_of(t.as_slice()));
            }
        },
        None => {},
    }
    CoverPathStep::Stored(
        match current_cover {
            Some(c) => Some(str_to_string(c)),
            None => None,
        },
    )
}

} // verus!
