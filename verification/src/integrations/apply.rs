//! Applying a release loaded from a tag source to a local album: which
//! release track each local track takes its tags from, and what is written.

use vstd::prelude::*;

use crate::db::albums::AlbumRow;
use crate::db::tracks::TrackRow;
use crate::fspath::{file_name, file_name_exec};
use crate::integrations::types::{
    AlbumLookupContext, AlbumLookupTrack, AlbumMetadataRelease, AlbumMetadataTrack,
};
use crate::library::paths::{library_path_hints, path_hints_spec, HintsView, LibraryPathHints};
use crate::library::tags::{clone_opt, opt_view, track_patch_spec, TrackTags, TrackTagsPatch};
use crate::text::{
    append_chars, chars_of, dec_int, fmt_i64, is_digit, is_digit_char, slice_of, starts_with,
    starts_with_lit, string_of, to_lowercase, trim, trim_chars, unicode_lower,
};

verus! {

/// A title with a leading `D - ` track prefix (one digit) removed.
pub open spec fn strip_track_prefix(s: Seq<char>) -> Seq<char> {
    if s.len() >= 1 && is_digit(s[0]) && starts_with(s.drop_first(), " - "@) {
        trim(s.skip(4))
    } else {
        s
    }
}

/// The form in which titles are compared: trimmed, without a one-digit
/// `D - ` prefix, lower-cased.
pub open spec fn normalized_title(s: Seq<char>) -> Seq<char> {
    unicode_lower(strip_track_prefix(trim(s)))
}

pub fn normalize_track_title(s: &str) -> (r: String)
    ensures
        r@ == normalized_title(s@),
{
    let v = chars_of(s);
    let t = trim_chars(v.as_slice());
    let stripped = if t.len() >= 1 && is_digit_char(t[0]) {
        let rest = slice_of(t.as_slice(), 1, t.len());
        if starts_with_lit(rest.as_slice(), " - ") {
            proof {
                reveal_strlit(" - ");
                assert(rest@ =~= t@.drop_first());
            }
            let tail = slice_of(t.as_slice(), 4, t.len());
            assert(tail@ =~= t@.skip(4));
            trim_chars(tail.as_slice())
        } else {
            assert(rest@ =~= t@.drop_first());
            t
        }
    } else {
        t
    };
    let st = string_of(stripped.as_slice());
    to_lowercase(st.as_str())
}

/// Index of the first release track numbered `n`.
pub open spec fn first_numbered(meta: Seq<AlbumMetadataTrack>, n: u32) -> Option<int>
    decreases meta.len(),
{
    if meta.len() == 0 {
        None
    } else if meta[0].track_number == Some(n) {
        Some(0)
    } else {
        match first_numbered(meta.drop_first(), n) {
            Some(i) => Some(i + 1),
            None => None,
        }
    }
}

/// Index of the first release track whose normalized title is `t`.
pub open spec fn first_titled(meta: Seq<AlbumMetadataTrack>, t: Seq<char>) -> Option<int>
    decreases meta.len(),
{
    if meta.len() == 0 {
        None
    } else if normalized_title(meta[0].title@) == t {
        Some(0)
    } else {
        match first_titled(meta.drop_first(), t) {
            Some(i) => Some(i + 1),
            None => None,
        }
    }
}

pub open spec fn shifted(o: Option<int>, k: int) -> Option<int> {
    match o {
        Some(i) => Some(i + k),
        None => None,
    }
}

/// Which release track a local track takes its tags from: for a positive
/// track number, the first release track with that number, else the track
/// at that position; failing that, the first release track whose normalized
/// title equals the local one, unless that is empty. Never a default.
pub open spec fn match_index(meta: Seq<AlbumMetadataTrack>, number: Option<i32>, title: Seq<char>) -> Option<int> {
    if meta.len() == 0 {
        None
    } else {
        let by_number = match number {
            Some(n) => if n > 0 {
                match first_numbered(meta, n as u32) {
                    Some(i) => Some(i),
                    None => if n <= meta.len() {
                        Some(n - 1)
                    } else {
                        None
                    },
                }
            } else {
                None
            },
            None => None,
        };
        match by_number {
            Some(i) => Some(i),
            None => {
                let t = normalized_title(title);
                if t.len() > 0 {
                    first_titled(meta, t)
                } else {
                    None
                }
            },
        }
    }
}

proof fn lemma_first_numbered_bounds(meta: Seq<AlbumMetadataTrack>, n: u32)
    ensures
        first_numbered(meta, n) matches Some(i) ==> 0 <= i < meta.len(),
    decreases meta.len(),
{
    if meta.len() > 0 {
        lemma_first_numbered_bounds(meta.drop_first(), n);
    }
}

proof fn lemma_first_titled_bounds(meta: Seq<AlbumMetadataTrack>, t: Seq<char>)
    ensures
        first_titled(meta, t) matches Some(i) ==> 0 <= i < meta.len(),
    decreases meta.len(),
{
    if meta.len() > 0 {
        lemma_first_titled_bounds(meta.drop_first(), t);
    }
}

fn find_numbered(meta: &[AlbumMetadataTrack], n: u32) -> (r: Option<usize>)
    ensures
        shifted(first_numbered(meta@, n), 0) == match r {
            Some(i) => Some(i as int),
            None => None::<int>,
        },
{
    let mut i: usize = 0;
    assert(meta@.skip(0) =~= meta@);
    while i < meta.len()
        invariant
            i <= meta.len(),
            first_numbered(meta@, n) == shifted(first_numbered(meta@.skip(i as int), n), i as int),
        decreases meta.len() - i,
    {
        assert(meta@.skip(i as int).drop_first() =~= meta@.skip(i as int + 1));
        if meta[i].track_number == Some(n) {
            return Some(i);
        }
        i += 1;
    }
    None
}

fn find_titled(meta: &[AlbumMetadataTrack], t: &String) -> (r: Option<usize>)
    ensures
        shifted(first_titled(meta@, t@), 0) == match r {
            Some(i) => Some(i as int),
            None => None::<int>,
        },
{
    let mut i: usize = 0;
    assert(meta@.skip(0) =~= meta@);
    while i < meta.len()
        invariant
            i <= meta.len(),
            first_titled(meta@, t@) == shifted(first_titled(meta@.skip(i as int), t@), i as int),
        decreases meta.len() - i,
    {
        assert(meta@.skip(i as int).drop_first() =~= meta@.skip(i as int + 1));
        let candidate = normalize_track_title(meta[i].title.as_str());
        let cv = chars_of(candidate.as_str());
        let tv = chars_of(t.as_str());
        if crate::text::seq_equal(cv.as_slice(), tv.as_slice()) {
            return Some(i);
        }
        i += 1;
    }
    None
}

/// The release track whose tags a local track takes (see `match_index`).
pub fn match_track<'a>(
    meta_tracks: &'a [AlbumMetadataTrack],
    track_number: Option<i32>,
    title: &str,
) -> (r: Option<&'a AlbumMetadataTrack>)
    ensures
        match match_index(meta_tracks@, track_number, title@) {
            Some(i) => 0 <= i < meta_tracks@.len() && (r matches Some(t) && *t == meta_tracks@[i]),
            None => r is None,
        },
{
    proof {
        match track_number {
            Some(n) => lemma_first_numbered_bounds(meta_tracks@, n as u32),
            None => {},
        }
        lemma_first_titled_bounds(meta_tracks@, normalized_title(title@));
    }
    if meta_tracks.len() == 0 {
        return None;
    }
    if let Some(n) = track_number {
        if n > 0 {
            if let Some(i) = find_numbered(meta_tracks, n as u32) {
                return Some(&meta_tracks[i]);
            }
            let idx = n as usize;
            if idx <= meta_tracks.len() {
                return Some(&meta_tracks[idx - 1]);
            }
        }
    }
    let title_l = normalize_track_title(title);
    if !title_l.as_str().is_empty() {
        match find_titled(meta_tracks, &title_l) {
            Some(i) => Some(&meta_tracks[i]),
            None => None,
        }
    } else {
        None
    }
}

/// Hints of the first track path that yields any.
pub open spec fn first_hints(paths: Seq<Seq<char>>) -> Option<HintsView>
    decreases paths.len(),
{
    if paths.len() == 0 {
        None
    } else {
        match path_hints_spec(paths[0]) {
            Some(h) => Some(h),
            None => first_hints(paths.drop_first()),
        }
    }
}

/// Path hints for an album: from its directory joined with the first
/// track's file name where the directory is known, else from the first track
/// path that yields any.
pub open spec fn album_hints(album_path: Option<Seq<char>>, paths: Seq<Seq<char>>) -> Option<
    HintsView,
> {
    let synthetic = match album_path {
        Some(ap) => if trim(ap).len() > 0 && paths.len() > 0 {
            match file_name(paths[0]) {
                Some(name) => path_hints_spec(ap + seq!['/'] + name),
                None => None,
            }
        } else {
            None
        },
        None => None,
    };
    match synthetic {
        Some(h) => Some(h),
        None => first_hints(paths),
    }
}

pub open spec fn opt_str_view(o: Option<&str>) -> Option<Seq<char>> {
    match o {
        Some(s) => Some(s@),
        None => None,
    }
}

pub open spec fn hints_view(o: Option<LibraryPathHints>) -> Option<HintsView> {
    match o {
        Some(h) => Some(h.view_hints()),
        None => None,
    }
}

/// The texts of a sequence of strings.
pub open spec fn views(v: Seq<String>) -> Seq<Seq<char>> {
    v.map_values(|s: String| s@)
}

fn first_path_hints(track_paths: &[String]) -> (r: Option<LibraryPathHints>)
    ensures
        hints_view(r) == first_hints(views(track_paths@)),
{
    let ghost vs = views(track_paths@);
    let mut i: usize = 0;
    assert(vs.skip(0) =~= vs);
    while i < track_paths.len()
        invariant
            i <= track_paths.len(),
            vs == views(track_paths@),
            first_hints(vs) == first_hints(vs.skip(i as int)),
        decreases track_paths.len() - i,
    {
        assert(vs.skip(i as int).drop_first() =~= vs.skip(i as int + 1));
        assert(vs.skip(i as int)[0] == track_paths@[i as int]@);
        let h = library_path_hints(track_paths[i].as_str());
        if h.is_some() {
            return h;
        }
        i += 1;
    }
    None
}

pub fn path_hints_for_album(album_path: Option<&str>, track_paths: &[String]) -> (r: Option<
    LibraryPathHints,
>)
    ensures
        hints_view(r) == album_hints(opt_str_view(album_path), views(track_paths@)),
{
    if let Some(ap) = album_path {
        let av = chars_of(ap);
        let at = trim_chars(av.as_slice());
        if at.len() > 0 && track_paths.len() > 0 {
            let first = chars_of(track_paths[0].as_str());
            assert(views(track_paths@)[0] == track_paths@[0]@);
            if let Some(name) = file_name_exec(first.as_slice()) {
                let mut syn = av;
                syn.push('/');
                append_chars(&mut syn, name.as_slice());
                assert(syn@ =~= ap@ + seq!['/'] + name@);
                assert(views(track_paths@)[0] == track_paths@[0]@);
                let s = string_of(syn.as_slice());
                let h = library_path_hints(s.as_str());
                if h.is_some() {
                    return h;
                }
            }
        }
    }
    first_path_hints(track_paths)
}

/// How a local track is described to a lookup: title and number from its
/// path where the path yields them, else from its row.
pub open spec fn lookup_track_title(t: TrackRow) -> Seq<char> {
    match path_hints_spec(t.path@) {
        Some(h) => match h.track_title {
            Some(x) => x,
            None => t.title@,
        },
        None => t.title@,
    }
}

pub open spec fn lookup_track_number(t: TrackRow) -> Option<i32> {
    match path_hints_spec(t.path@) {
        Some(h) => match h.track_number {
            Some(n) => Some(n as i32),
            None => t.track_number,
        },
        None => t.track_number,
    }
}

pub open spec fn paths_of(rows: Seq<TrackRow>) -> Seq<Seq<char>> {
    rows.map_values(|t: TrackRow| t.path@)
}

fn lookup_track_for(t: &TrackRow) -> (r: AlbumLookupTrack)
    ensures
        r.title@ == lookup_track_title(*t),
        r.track_number == lookup_track_number(*t),
        r.duration_sec == t.duration_sec,
{
    let from_path = library_path_hints(t.path.as_str());
    let title = match &from_path {
        Some(h) => match &h.track_title {
            Some(x) => x.clone(),
            None => t.title.clone(),
        },
        None => t.title.clone(),
    };
    let track_number = match &from_path {
        Some(h) => match h.track_number {
            Some(n) => Some(n as i32),
            None => t.track_number,
        },
        None => t.track_number,
    };
    AlbumLookupTrack { title, track_number, duration_sec: t.duration_sec }
}

/// What a metadata lookup is asked for an album (`build_lookup_context`
/// once the album, its artist's name and its tracks are read): artist,
/// title and year from the path hints where there are any (the year falling
/// back to the album row's), else from the rows.
pub fn lookup_context_for(album: &AlbumRow, db_artist: &str, track_rows: &[TrackRow]) -> (r:
    AlbumLookupContext)
    ensures
        ({
            let hints = album_hints(
                match album.path {
                    Some(p) => Some(p@),
                    None => None,
                },
                paths_of(track_rows@),
            );
            &&& hints matches Some(h) ==> r.artist_name@ == h.artist_name && r.album_title@
                == h.album_title && r.year == (match h.year {
                Some(y) => Some(y),
                None => album.year,
            })
            &&& hints is None ==> r.artist_name@ == db_artist@ && r.album_title@ == album.title@
                && r.year == album.year
        }),
        r.tracks@.len() == track_rows@.len(),
        forall|i: int|
            0 <= i < track_rows@.len() ==> (#[trigger] r.tracks@[i]).title@ == lookup_track_title(
                track_rows@[i],
            ) && r.tracks@[i].track_number == lookup_track_number(track_rows@[i])
                && r.tracks@[i].duration_sec == track_rows@[i].duration_sec,
{
    let mut track_paths: Vec<String> = Vec::new();
    let mut i: usize = 0;
    while i < track_rows.len()
        invariant
            i <= track_rows.len(),
            track_paths@.len() == i,
            forall|j: int| 0 <= j < i ==> (#[trigger] track_paths@[j])@ == track_rows@[j].path@,
        decreases track_rows.len() - i,
    {
        track_paths.push(track_rows[i].path.clone());
        i += 1;
    }
    assert(views(track_paths@) =~= paths_of(track_rows@));
    let hints = match &album.path {
        Some(p) => path_hints_for_album(Some(p.as_str()), track_paths.as_slice()),
        None => path_hints_for_album(None, track_paths.as_slice()),
    };
    let (artist_name, album_title, year) = match hints {
        Some(h) => {
            let y = match h.year {
                Some(y) => Some(y),
                None => album.year,
            };
            (h.artist_name, h.album_title, y)
        },
        None => (crate::text::str_to_string(db_artist), album.title.clone(), album.year),
    };
    let mut tracks: Vec<AlbumLookupTrack> = Vec::new();
    let mut k: usize = 0;
    while k < track_rows.len()
        invariant
            k <= track_rows.len(),
            tracks@.len() == k,
            forall|j: int|
                0 <= j < k ==> (#[trigger] tracks@[j]).title@ == lookup_track_title(track_rows@[j])
                    && tracks@[j].track_number == lookup_track_number(track_rows@[j])
                    && tracks@[j].duration_sec == track_rows@[j].duration_sec,
        decreases track_rows.len() - k,
    {
        tracks.push(lookup_track_for(&track_rows[k]));
        k += 1;
    }
    AlbumLookupContext { artist_name, album_title, year, tracks }
}

/// The title a local track is matched by: the path's track title unless it
/// is blank, else the row's title.
pub open spec fn match_title(t: TrackRow) -> Seq<char> {
    match path_hints_spec(t.path@) {
        Some(h) => match h.track_title {
            Some(x) => if trim(x).len() > 0 {
                x
            } else {
                t.title@
            },
            None => t.title@,
        },
        None => t.title@,
    }
}

/// What applying a release to an album did.
pub struct ApplyAlbumMetadataResult {
    pub tracks_updated: u32,
    pub cover_applied: bool,
    pub warnings: Vec<String>,
}

/// Row fields written for a track that took a release track's tags.
#[derive(Debug, Clone)]
pub struct TrackMetadataFields {
    pub title: String,
    pub track_number: Option<i32>,
    pub year: Option<i32>,
    pub disc_number: Option<i32>,
    pub genre: Option<String>,
}

/// What applying a release does to one local track: skip it with a
/// warning, or patch its tags and row.
#[derive(Debug, Clone)]
pub enum TrackApplyPlan {
    Skip(String),
    Update(TrackTagsPatch, TrackMetadataFields),
}

/// The warning for a local track that no release track matches.
pub open spec fn no_match_warning(number: Option<i32>, title: Seq<char>) -> Seq<char> {
    "no metadata match for track #"@ + dec_int(
        match number {
            Some(n) => n as int,
            None => 0,
        },
    ) + " ("@ + title + ")"@
}

pub open spec fn u32_as_i32(o: Option<u32>) -> Option<i32> {
    match o {
        Some(n) => Some(n as i32),
        None => None,
    }
}

pub open spec fn i32_as_u32(o: Option<i32>) -> Option<u32> {
    match o {
        Some(n) => Some(n as u32),
        None => None,
    }
}

pub open spec fn or_else<T>(a: Option<T>, b: Option<T>) -> Option<T> {
    match a {
        Some(x) => Some(x),
        None => b,
    }
}

/// The tag patch for a local track matched to release track `m`: the
/// release's artist and album title, the track's title, numbers and year
/// (the release year where the track has none), its genre or the release's.
pub open spec fn patch_matches(p: TrackTagsPatch, m: AlbumMetadataTrack, rel: AlbumMetadataRelease) -> bool {
    &&& opt_view(p.title) == Some(m.title@)
    &&& opt_view(p.artist) == Some(rel.artist_name@)
    &&& opt_view(p.album) == Some(rel.title@)
    &&& p.track_number == m.track_number
    &&& p.year == or_else(m.year, i32_as_u32(rel.year))
    &&& p.disc_number == m.disc_number
    &&& opt_view(p.genre) == or_else(opt_view(m.genre), opt_view(rel.genre))
}

pub open spec fn fields_match(f: TrackMetadataFields, m: AlbumMetadataTrack, rel: AlbumMetadataRelease) -> bool {
    &&& f.title@ == m.title@
    &&& f.track_number == u32_as_i32(m.track_number)
    &&& f.year == or_else(u32_as_i32(m.year), rel.year)
    &&& f.disc_number == u32_as_i32(m.disc_number)
    &&& opt_view(f.genre) == or_else(opt_view(m.genre), opt_view(rel.genre))
}

fn or_else_string(a: &Option<String>, b: &Option<String>) -> (r: Option<String>)
    ensures
        opt_view(r) == or_else(opt_view(*a), opt_view(*b)),
{
    match a {
        Some(x) => Some(x.clone()),
        None => clone_opt(b),
    }
}

/// How applying `release` treats the local track `db_track` (the body of
/// the per-track loop of `apply_release_to_album`).
pub fn plan_track_apply(db_track: &TrackRow, release: &AlbumMetadataRelease) -> (r: TrackApplyPlan)
    ensures
        match match_index(release.tracks@, lookup_track_number(*db_track), match_title(*db_track)) {
            Some(i) => r matches TrackApplyPlan::Update(p, f) && patch_matches(
                p,
                release.tracks@[i],
                *release,
            ) && fields_match(f, release.tracks@[i], *release),
            None => r matches TrackApplyPlan::Skip(w) && w@ == no_match_warning(
                lookup_track_number(*db_track),
                match_title(*db_track),
            ),
        },
{
    let hints = library_path_hints(db_track.path.as_str());
    let match_number = match &hints {
        Some(h) => match h.track_number {
            Some(n) => Some(n as i32),
            None => db_track.track_number,
        },
        None => db_track.track_number,
    };
    let match_title: String = match &hints {
        Some(h) => match &h.track_title {
            Some(x) => {
                let xv = chars_of(x.as_str());
                let xt = trim_chars(xv.as_slice());
                if xt.len() > 0 {
                    x.clone()
                } else {
                    db_track.title.clone()
                }
            },
            None => db_track.title.clone(),
        },
        None => db_track.title.clone(),
    };
    match match_track(release.tracks.as_slice(), match_number, match_title.as_str()) {
        None => {
            let mut w = chars_of("no metadata match for track #");
            let n: i64 = match match_number {
                Some(n) => n as i64,
                None => 0,
            };
            let d = fmt_i64(n);
            append_chars(&mut w, d.as_slice());
            let open = chars_of(" (");
            append_chars(&mut w, open.as_slice());
            let tv = chars_of(match_title.as_str());
            append_chars(&mut w, tv.as_slice());
            let close = chars_of(")");
            append_chars(&mut w, close.as_slice());
            TrackApplyPlan::Skip(string_of(w.as_slice()))
        },
        Some(meta) => {
            let year_u: Option<u32> = match meta.year {
                Some(y) => Some(y),
                None => match release.year {
                    Some(y) => Some(y as u32),
                    None => None,
                },
            };
            let patch = TrackTagsPatch {
                title: Some(meta.title.clone()),
                artist: Some(release.artist_name.clone()),
                album: Some(release.title.clone()),
                track_number: meta.track_number,
                year: year_u,
                disc_number: meta.disc_number,
                genre: or_else_string(&meta.genre, &release.genre),
            };
            let fields = TrackMetadataFields {
                title: meta.title.clone(),
                track_number: match meta.track_number {
                    Some(n) => Some(n as i32),
                    None => None,
                },
                year: match meta.year {
                    Some(y) => Some(y as i32),
                    None => release.year,
                },
                disc_number: match meta.disc_number {
                    Some(d) => Some(d as i32),
                    None => None,
                },
                genre: or_else_string(&meta.genre, &release.genre),
            };
            TrackApplyPlan::Update(patch, fields)
        },
    }
}

/// The album directory a release is applied in: the album row's path,
/// trimmed; an album without one is refused.
pub fn album_dir_for_apply(path: Option<&str>) -> (r: Result<String, crate::error::ApiError>)
    ensures
        match opt_str_view(path) {
            Some(p) => if trim(p).len() > 0 {
                r matches Ok(d) && d@ == trim(p)
            } else {
                r matches Err(e) && crate::error::is_message(
                    e,
                    "album has no directory path on disk"@,
                )
            },
            None => r matches Err(e) && crate::error::is_message(
                e,
                "album has no directory path on disk"@,
            ),
        },
{
    match path {
        Some(p) => {
            let v = chars_of(p);
            let t = trim_chars(v.as_slice());
            if t.len() > 0 {
                return Ok(string_of(t.as_slice()));
            }
        },
        None => {},
    }
    Err(crate::error::ApiError::bad_request("album has no directory path on disk"))
}

/// Whether a release names an artist the album should be linked to: any
/// name but an empty one and `unknown`.
pub fn release_names_artist(artist_name: &str) -> (r: bool)
    ensures
        r == (artist_name@ != "unknown"@ && artist_name@.len() > 0),
{
    !crate::text::str_is(artist_name, "unknown") && !artist_name.is_empty()
}

/// The error for a track path that is not a file in storage.
pub fn track_file_missing(track_rel: &str) -> (e: crate::error::ApiError)
    ensures
        crate::error::is_message(e, "INTEGRATION_TRACK_FILE_NOT_FOUND:"@ + track_rel@),
{
    let mut v = chars_of("INTEGRATION_TRACK_FILE_NOT_FOUND:");
    let t = chars_of(track_rel);
    append_chars(&mut v, t.as_slice());
    crate::error::ApiError::Message(string_of(v.as_slice()))
}


/// The first release track titled `t` is the `k`-th where that one is and
/// none before it is.
proof fn lemma_first_titled_at(meta: Seq<AlbumMetadataTrack>, t: Seq<char>, k: int)
    requires
        0 <= k < meta.len(),
        normalized_title(meta[k].title@) == t,
        forall|j: int| 0 <= j < k ==> normalized_title(#[trigger] meta[j].title@) != t,
    ensures
        first_titled(meta, t) == Some(k),
    decreases k,
{
    if k > 0 {
        let rest = meta.drop_first();
        assert(normalized_title(meta[0].title@) != t);
        assert forall|j: int| 0 <= j < k - 1 implies normalized_title(#[trigger] rest[j].title@) != t by {
            assert(rest[j] == meta[j + 1]);
        }
        assert(rest[k - 1] == meta[k]);
        lemma_first_titled_at(rest, t, k - 1);
    }
}

/// The first release track numbered `n` is the `k`-th where that one is and
/// none before it is; with no track numbered `n` there is none.
proof fn lemma_first_numbered_at(meta: Seq<AlbumMetadataTrack>, n: u32, k: int)
    requires
        0 <= k <= meta.len(),
        k < meta.len() ==> meta[k].track_number == Some(n),
        forall|j: int| 0 <= j < k ==> (#[trigger] meta[j].track_number) != Some(n),
    ensures
        k < meta.len() ==> first_numbered(meta, n) == Some(k),
        k == meta.len() ==> first_numbered(meta, n) is None,
    decreases k,
{
    if k > 0 {
        let rest = meta.drop_first();
        assert(meta[0].track_number != Some(n));
        assert forall|j: int| 0 <= j < k - 1 implies (#[trigger] rest[j].track_number) != Some(n) by {
            assert(rest[j] == meta[j + 1]);
        }
        if k < meta.len() {
            assert(rest[k - 1] == meta[k]);
        }
        lemma_first_numbered_at(rest, n, k - 1);
    }
}

/// A local track whose positive number some release track carries takes
/// the first release track with that number, whatever its title.
pub proof fn lemma_match_by_number(meta: Seq<AlbumMetadataTrack>, n: i32, title: Seq<char>, k: int)
    requires
        n > 0,
        0 <= k < meta.len(),
        meta[k].track_number == Some(n as u32),
        forall|j: int| 0 <= j < k ==> (#[trigger] meta[j].track_number) != Some(n as u32),
    ensures
        match_index(meta, Some(n), title) == Some(k),
{
    lemma_first_numbered_at(meta, n as u32, k);
}

/// A local track whose positive number no release track carries takes the
/// release track at that position, where there is one, whatever its title.
pub proof fn lemma_match_by_position(meta: Seq<AlbumMetadataTrack>, n: i32, title: Seq<char>)
    requires
        0 < n <= meta.len(),
        forall|j: int| 0 <= j < meta.len() ==> (#[trigger] meta[j].track_number) != Some(n as u32),
    ensures
        match_index(meta, Some(n), title) == Some(n - 1),
{
    lemma_first_numbered_at(meta, n as u32, meta.len() as int);
}

/// Where the number (if any) finds no release track, neither by number nor
/// by position, a local track takes the first release track with the same
/// nonempty normalized title, whether or not it carried a number.
pub proof fn lemma_match_by_title(meta: Seq<AlbumMetadataTrack>, number: Option<i32>, title: Seq<char>, k: int)
    requires
        0 <= k < meta.len(),
        normalized_title(title).len() > 0,
        normalized_title(meta[k].title@) == normalized_title(title),
        forall|j: int| 0 <= j < k ==> normalized_title(#[trigger] meta[j].title@) != normalized_title(title),
        number matches Some(n) ==> (n > 0 ==> n > meta.len() && forall|j: int|
            0 <= j < meta.len() ==> (#[trigger] meta[j].track_number) != Some(n as u32)),
    ensures
        match_index(meta, number, title) == Some(k),
{
    match number {
        Some(n) => if n > 0 {
            lemma_first_numbered_at(meta, n as u32, meta.len() as int);
        },
        None => {},
    }
    lemma_first_titled_at(meta, normalized_title(title), k);
}

/// A local track whose normalized title is empty, and whose number finds no
/// release track, takes none.
pub proof fn lemma_no_match_without_title(meta: Seq<AlbumMetadataTrack>, number: Option<i32>, title: Seq<char>)
    requires
        normalized_title(title).len() == 0,
        number matches Some(n) ==> (n > 0 ==> n > meta.len() && forall|j: int|
            0 <= j < meta.len() ==> (#[trigger] meta[j].track_number) != Some(n as u32)),
    ensures
        match_index(meta, number, title) is None,
{
    match number {
        Some(n) => if n > 0 {
            lemma_first_numbered_at(meta, n as u32, meta.len() as int);
        },
        None => {},
    }
}


/// Applying the patch planned for a matched release track writes the
/// release track's title, the release's artist and album title, the
/// track's number and disc where the release gives them, and its year or,
/// where it has none, the release's; the row fields carry the same year.
pub proof fn lemma_planned_patch_applied(
    t: TrackTags,
    p: TrackTagsPatch,
    f: TrackMetadataFields,
    m: AlbumMetadataTrack,
    rel: AlbumMetadataRelease,
)
    requires
        patch_matches(p, m, rel),
        fields_match(f, m, rel),
    ensures
        ({
            let r = track_patch_spec(t, p);
            &&& r.title == m.title@ && r.artist == rel.artist_name@ && r.album == rel.title@
            &&& (m.track_number is Some ==> r.track_number == m.track_number)
            &&& (m.disc_number is Some ==> r.disc_number == m.disc_number)
            &&& (m.year matches Some(y) ==> r.year == Some(y) && f.year == Some(y as i32))
            &&& (m.year is None ==> f.year == rel.year)
            &&& (m.year is None ==> (rel.year matches Some(y) ==> (y >= 0 ==> r.year == Some(y as u32))))
            &&& (m.year is None && rel.year is None ==> r.year == t.year)
        }),
{
}


/// Titles compare without surrounding space and without a one-digit
/// `D - ` track prefix: a trimmed title, with or without such a prefix,
/// compares as its lower-cased text (where it does not start with a digit
/// itself).
pub proof fn lemma_normalized_title_prefix(c: char, x: Seq<char>)
    requires
        is_digit(c),
        x.len() > 0,
        trim(x) == x,
    ensures
        normalized_title(seq![c] + " - "@ + x) == unicode_lower(x),
        !is_digit(x[0]) ==> normalized_title(x) == unicode_lower(x),
        !is_digit(x[0]) ==> normalized_title(seq![c] + " - "@ + x) == normalized_title(x),
{
    reveal_strlit(" - ");
    crate::text::lemma_trim_idempotent(x);
    let s = seq![c] + " - "@ + x;
    assert(s[0] == c);
    assert(s.last() == x.last());
    assert(crate::text::trim_start(s) == s);
    assert(crate::text::trim_end(s) == s);
    assert(trim(s) == s);
    assert(s.drop_first().subrange(0, 3) =~= " - "@);
    assert(s.skip(4) =~= x);
    if !is_digit(x[0]) {
        assert(strip_track_prefix(x) == x);
    }
}

} // verus!
