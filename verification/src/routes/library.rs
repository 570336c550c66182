//! The library routes' decisions: listing parameters, which track file is
//! streamed, what a CUE split request must satisfy, and what a tag patch
//! writes to the track and album rows.

use vstd::prelude::*;

use crate::api::keyset::{order_named, SortOrder};
use crate::api::library::{
    CueTrack, LibraryAlbumTagsPatchRequest, LibraryTrackDetailResponse,
    LibraryTrackTagsPatchRequest,
};
use crate::db::albums::AlbumRow;
use crate::error::{is_message, ApiError};
use crate::fspath::{has_parent_dir, has_parent_dir_exec};
use crate::integrations::apply::{i32_as_u32, or_else, u32_as_i32};
use crate::library::storage::{storage_error_matches, storage_parse_spec, StoragePath};
use crate::library::tags::{
    is_audio_file, is_audio_file_spec, opt_view, AlbumTagsPatch, TrackTags, TrackTagsPatch,
};
use crate::text::{chars_of, starts_with, starts_with_chars, str_is, string_of, trim, trim_chars};

verus! {

/// Query of `POST /library/scan`: a library-relative directory to scan
/// instead of the whole library.
#[derive(Debug, Clone)]
pub struct StartLibraryScanQuery {
    pub root: Option<String>,
}

/// The subtree a scan request covers: the parsed `root`, or everything.
pub fn scan_root(q: &StartLibraryScanQuery) -> (r: Result<Option<StoragePath>, ApiError>)
    ensures
        match q.root {
            None => r == Ok::<Option<StoragePath>, ApiError>(None),
            Some(root) => match storage_parse_spec(root@) {
                Ok(s) => r matches Ok(Some(p)) && p@ == s,
                Err(kind) => r matches Err(e) && storage_error_matches(e, kind),
            },
        },
{
    match &q.root {
        Some(root) => {
            let p = StoragePath::parse(root.as_str())?;
            Ok(Some(p))
        },
        None => Ok(None),
    }
}

/// Query of `GET /library/albums`.
#[derive(Debug, Clone)]
pub struct AlbumListQuery {
    pub limit: u32,
    pub sort: String,
    pub order: Option<String>,
    pub cursor: Option<String>,
    pub q: Option<String>,
}

/// Page size when the query gives none.
pub fn default_limit() -> (r: u32)
    ensures
        r == 50,
{
    50
}

/// Sort when the query gives none.
pub fn default_album_sort() -> (r: String)
    ensures
        r@ == "title"@,
{
    "title".to_string()
}

/// The order of an album listing: as given, ascending when not given.
pub fn album_list_order(order: Option<&str>) -> (r: Result<SortOrder, ApiError>)
    ensures
        match order {
            None => r == Ok::<SortOrder, ApiError>(SortOrder::Asc),
            Some(s) => match order_named(s@) {
                Some(o) => r == Ok::<SortOrder, ApiError>(o),
                None => r matches Err(e) && is_message(e, "order must be asc or desc"@),
            },
        },
{
    match order {
        None => Ok(SortOrder::Asc),
        Some(s) => SortOrder::parse(s),
    }
}

/// Query of the album CUE endpoint: the sheet to show.
#[derive(Debug, Clone)]
pub struct CueQuery {
    pub cue_path: Option<String>,
}

/// The file a track stream reads: the track's path, trimmed, which must be
/// set, name an audio file, and be a valid library-relative path.
pub open spec fn stream_path_spec(path: Seq<char>) -> Result<Seq<char>, Seq<char>> {
    let rel = trim(path);
    if rel.len() == 0 {
        Err("track has no file path"@)
    } else if !is_audio_file_spec(rel) {
        Err("not an audio file"@)
    } else {
        match storage_parse_spec(rel) {
            Ok(s) => Ok(s),
            Err(_) => Err(Seq::empty()),
        }
    }
}

pub fn stream_track_path(path: &str) -> (r: Result<StoragePath, ApiError>)
    ensures
        trim(path@).len() == 0 ==> (r matches Err(e) && is_message(e, "track has no file path"@)),
        trim(path@).len() > 0 && !is_audio_file_spec(trim(path@)) ==> (r matches Err(e)
            && is_message(e, "not an audio file"@)),
        trim(path@).len() > 0 && is_audio_file_spec(trim(path@)) ==> match storage_parse_spec(
            trim(path@),
        ) {
            Ok(s) => r matches Ok(p) && p@ == s,
            Err(kind) => r matches Err(e) && storage_error_matches(e, kind),
        },
{
    let v = chars_of(path);
    let t = trim_chars(v.as_slice());
    if t.len() == 0 {
        return Err(ApiError::bad_request("track has no file path"));
    }
    let rel = string_of(t.as_slice());
    if !is_audio_file(rel.as_str()) {
        return Err(ApiError::bad_request("not an audio file"));
    }
    StoragePath::parse(rel.as_str())
}

/// `path` is `base` or lies below it; everything lies below the root.
pub open spec fn under_spec(path: Seq<char>, base: Seq<char>) -> bool {
    base.len() == 0 || path == base || starts_with(path, base.push('/'))
}

pub fn storage_path_is_under(path: &StoragePath, base: &StoragePath) -> (r: bool)
    ensures
        r == under_spec(path@, base@),
{
    if base.is_root() {
        return true;
    }
    let p = chars_of(path.as_str());
    let b = chars_of(base.as_str());
    if crate::text::seq_equal(p.as_slice(), b.as_slice()) {
        return true;
    }
    let mut prefix = b.clone();
    prefix.push('/');
    starts_with_chars(p.as_slice(), prefix.as_slice())
}

/// Every path lies under itself and under the root.
pub proof fn lemma_under_reflexive_and_root(p: Seq<char>)
    ensures
        under_spec(p, p),
        under_spec(p, Seq::empty()),
{
}

/// An audio path a CUE sheet may name: relative and without `..`.
pub open spec fn cue_audio_ok(audio_path: Seq<char>) -> bool {
    !(audio_path.len() > 0 && audio_path[0] == '/') && !has_parent_dir(audio_path)
}

pub fn reject_unsafe_cue_audio_path(audio_path: &str) -> (r: Result<(), ApiError>)
    ensures
        cue_audio_ok(audio_path@) ==> r is Ok,
        !cue_audio_ok(audio_path@) ==> (r matches Err(e) && is_message(
            e,
            "invalid CUE audio path"@,
        )),
{
    let v = chars_of(audio_path);
    if (v.len() > 0 && v[0] == '/') || has_parent_dir_exec(v.as_slice()) {
        return Err(ApiError::bad_request("invalid CUE audio path"));
    }
    Ok(())
}

/// The ways a CUE split request can be refused before anything is read.
pub enum CueSplitRefusal {
    NoAlbumDir,
    AlbumPath(crate::library::storage::StoragePathError),
    Invalid,
    Policy,
    CuePath(crate::library::storage::StoragePathError),
    Outside,
    Audio,
}

pub open spec fn policy_ok(p: Seq<char>) -> bool {
    p == "keep"@ || p == "delete_after_success"@
}

/// The checks of `split_library_album_cue`, in order: the album has a
/// directory that parses, the sheet validated, the source policy is known,
/// the sheet's path parses and lies in the album directory, and the audio
/// path is safe; on success, the album and sheet paths.
pub open spec fn cue_split_spec(
    album_path: Option<Seq<char>>,
    valid: bool,
    policy: Seq<char>,
    cue_path: Seq<char>,
    audio_path: Seq<char>,
) -> Result<(Seq<char>, Seq<char>), CueSplitRefusal> {
    match album_path {
        None => Err(CueSplitRefusal::NoAlbumDir),
        Some(a) => match storage_parse_spec(a) {
            Err(k) => Err(CueSplitRefusal::AlbumPath(k)),
            Ok(album) => if !valid {
                Err(CueSplitRefusal::Invalid)
            } else if !policy_ok(policy) {
                Err(CueSplitRefusal::Policy)
            } else {
                match storage_parse_spec(cue_path) {
                    Err(k) => Err(CueSplitRefusal::CuePath(k)),
                    Ok(cue) => if !under_spec(cue, album) {
                        Err(CueSplitRefusal::Outside)
                    } else if !cue_audio_ok(audio_path) {
                        Err(CueSplitRefusal::Audio)
                    } else {
                        Ok((album, cue))
                    },
                }
            },
        },
    }
}

/// The error a refusal is answered with.
pub open spec fn refusal_error(e: ApiError, r: CueSplitRefusal) -> bool {
    match r {
        CueSplitRefusal::NoAlbumDir => is_message(e, "album has no directory path"@),
        CueSplitRefusal::AlbumPath(k) => storage_error_matches(e, k),
        CueSplitRefusal::Invalid => is_message(e, "CUE has validation errors"@),
        CueSplitRefusal::Policy => is_message(e, "invalid source_file_policy"@),
        CueSplitRefusal::CuePath(k) => storage_error_matches(e, k),
        CueSplitRefusal::Outside => is_message(e, "CUE path is outside album directory"@),
        CueSplitRefusal::Audio => is_message(e, "invalid CUE audio path"@),
    }
}

pub fn check_cue_split(
    album_path: Option<&str>,
    valid: bool,
    source_file_policy: &str,
    cue_path: &str,
    audio_path: &str,
) -> (r: Result<(StoragePath, StoragePath), ApiError>)
    ensures
        match cue_split_spec(
            match album_path {
                Some(a) => Some(a@),
                None => None,
            },
            valid,
            source_file_policy@,
            cue_path@,
            audio_path@,
        ) {
            Ok((a, c)) => r matches Ok((pa, pc)) && pa@ == a && pc@ == c,
            Err(k) => r matches Err(e) && refusal_error(e, k),
        },
{
    let a = match album_path {
        Some(a) => a,
        None => {
            return Err(ApiError::bad_request("album has no directory path"));
        },
    };
    let album = StoragePath::parse(a)?;
    if !valid {
        return Err(ApiError::bad_request("CUE has validation errors"));
    }
    if !(str_is(source_file_policy, "keep") || str_is(source_file_policy, "delete_after_success")) {
        return Err(ApiError::bad_request("invalid source_file_policy"));
    }
    let cue = StoragePath::parse(cue_path)?;
    if !storage_path_is_under(&cue, &album) {
        return Err(ApiError::bad_request("CUE path is outside album directory"));
    }
    reject_unsafe_cue_audio_path(audio_path)?;
    Ok((album, cue))
}

/// How many tracks of a sheet are split out: those selected.
pub open spec fn selected_count(ts: Seq<CueTrack>) -> nat
    decreases ts.len(),
{
    if ts.len() == 0 {
        0
    } else {
        selected_count(ts.drop_last()) + if ts.last().selected {
            1nat
        } else {
            0nat
        }
    }
}

proof fn lemma_selected_count_bound(ts: Seq<CueTrack>)
    ensures
        selected_count(ts) <= ts.len(),
    decreases ts.len(),
{
    if ts.len() > 0 {
        lemma_selected_count_bound(ts.drop_last());
    }
}

pub fn selected_track_count(tracks: &Vec<CueTrack>) -> (r: i64)
    requires
        tracks@.len() <= i64::MAX,
    ensures
        r == selected_count(tracks@),
{
    let mut n: i64 = 0;
    let mut i: usize = 0;
    while i < tracks.len()
        invariant
            i <= tracks.len(),
            tracks@.len() <= i64::MAX,
            n == selected_count(tracks@.take(i as int)),
        decreases tracks.len() - i,
    {
        proof {
            assert(tracks@.take(i + 1).drop_last() =~= tracks@.take(i as int));
            lemma_selected_count_bound(tracks@.take(i as int));
        }
        if tracks[i].selected {
            n = n + 1;
        }
        i += 1;
    }
    assert(tracks@.take(tracks.len() as int) =~= tracks@);
    n
}

/// Which artist an album row is linked to after a patch.
#[derive(Debug, Clone)]
pub enum ArtistLink {
    /// The artist of this name (created if needed).
    ByName(String),
    /// The artist it has.
    Keep,
}

/// What a tag patch writes to the album row.
#[derive(Debug, Clone)]
pub struct AlbumRowPlan {
    pub artist: ArtistLink,
    pub title: String,
    pub year: Option<i32>,
}

pub open spec fn link_view(l: ArtistLink) -> Option<Seq<char>> {
    match l {
        ArtistLink::ByName(n) => Some(n@),
        ArtistLink::Keep => None,
    }
}

/// An album patch rewrites the album row when it names an artist (linking
/// the row to it), a title or a year; the title and year not given stay.
pub open spec fn album_row_plan_spec(album: AlbumRow, body: LibraryAlbumTagsPatchRequest) -> Option<
    (Option<Seq<char>>, Seq<char>, Option<i32>),
> {
    let title = match body.album_title {
        Some(t) => t@,
        None => album.title@,
    };
    let year = or_else(body.year, album.year);
    if body.artist_name is Some || body.album_title is Some || body.year is Some {
        Some((opt_view(body.artist_name), title, year))
    } else {
        None
    }
}

pub fn album_tags_row_plan(album: &AlbumRow, body: &LibraryAlbumTagsPatchRequest) -> (r: Option<
    AlbumRowPlan,
>)
    ensures
        match album_row_plan_spec(*album, *body) {
            None => r is None,
            Some((a, t, y)) => r matches Some(p) && link_view(p.artist) == a && p.title@ == t
                && p.year == y,
        },
{
    if body.artist_name.is_none() && body.album_title.is_none() && body.year.is_none() {
        return None;
    }
    let title = match &body.album_title {
        Some(t) => t.clone(),
        None => album.title.clone(),
    };
    let year = match body.year {
        Some(y) => Some(y),
        None => album.year,
    };
    let artist = match &body.artist_name {
        Some(a) => ArtistLink::ByName(a.clone()),
        None => ArtistLink::Keep,
    };
    Some(AlbumRowPlan { artist, title, year })
}

/// The tag patch an album patch applies to each of its tracks.
pub fn album_tags_patch(body: &LibraryAlbumTagsPatchRequest) -> (r: AlbumTagsPatch)
    ensures
        opt_view(r.artist) == opt_view(body.artist_name),
        opt_view(r.album) == opt_view(body.album_title),
        r.year == i32_as_u32(body.year),
        opt_view(r.genre) == opt_view(body.genre),
        r.track_total == i32_as_u32(body.track_total),
        r.disc_total == i32_as_u32(body.disc_total),
{
    AlbumTagsPatch {
        artist: crate::library::tags::clone_opt(&body.artist_name),
        album: crate::library::tags::clone_opt(&body.album_title),
        year: match body.year {
            Some(y) => Some(y as u32),
            None => None,
        },
        genre: crate::library::tags::clone_opt(&body.genre),
        track_total: match body.track_total {
            Some(n) => Some(n as u32),
            None => None,
        },
        disc_total: match body.disc_total {
            Some(n) => Some(n as u32),
            None => None,
        },
    }
}

/// The tag patch a track patch applies.
pub fn track_tags_patch(body: &LibraryTrackTagsPatchRequest) -> (r: TrackTagsPatch)
    ensures
        opt_view(r.title) == opt_view(body.title),
        opt_view(r.artist) == opt_view(body.artist_name),
        opt_view(r.album) == opt_view(body.album_title),
        r.track_number == i32_as_u32(body.track_number),
        r.year == i32_as_u32(body.year),
        r.disc_number == i32_as_u32(body.disc_number),
        opt_view(r.genre) == opt_view(body.genre),
{
    TrackTagsPatch {
        title: crate::library::tags::clone_opt(&body.title),
        artist: crate::library::tags::clone_opt(&body.artist_name),
        album: crate::library::tags::clone_opt(&body.album_title),
        track_number: match body.track_number {
            Some(n) => Some(n as u32),
            None => None,
        },
        year: match body.year {
            Some(y) => Some(y as u32),
            None => None,
        },
        disc_number: match body.disc_number {
            Some(d) => Some(d as u32),
            None => None,
        },
        genre: crate::library::tags::clone_opt(&body.genre),
    }
}

/// Whether a track patch rewrites its album row: with an artist, only when
/// it also names the album; without one, when it sets a year.
pub open spec fn track_patch_touches_album_spec(body: LibraryTrackTagsPatchRequest) -> bool {
    if body.artist_name is Some {
        body.album_title is Some
    } else {
        body.year is Some
    }
}

pub fn track_patch_touches_album(body: &LibraryTrackTagsPatchRequest) -> (r: bool)
    ensures
        r == track_patch_touches_album_spec(*body),
{
    if body.artist_name.is_some() {
        body.album_title.is_some()
    } else {
        body.year.is_some()
    }
}

/// The album row a track patch writes: linked to the named artist under
/// the named title, or keeping artist and title; the year is the patch's,
/// else the track's tag year, else the album's.
pub fn track_tags_row_plan(
    album: &AlbumRow,
    body: &LibraryTrackTagsPatchRequest,
    tag_year: Option<u32>,
) -> (r: AlbumRowPlan)
    requires
        track_patch_touches_album_spec(*body),
    ensures
        link_view(r.artist) == (if body.artist_name is Some {
            opt_view(body.artist_name)
        } else {
            None
        }),
        r.title@ == (match body.artist_name {
            Some(_) => match body.album_title {
                Some(t) => t@,
                None => album.title@,
            },
            None => album.title@,
        }),
        r.year == or_else(or_else(body.year, u32_as_i32(tag_year)), album.year),
{
    let year = match body.year {
        Some(y) => Some(y),
        None => match tag_year {
            Some(y) => Some(y as i32),
            None => album.year,
        },
    };
    match (&body.artist_name, &body.album_title) {
        (Some(a), Some(t)) => AlbumRowPlan {
            artist: ArtistLink::ByName(a.clone()),
            title: t.clone(),
            year,
        },
        _ => AlbumRowPlan { artist: ArtistLink::Keep, title: album.title.clone(), year },
    }
}

/// A genre as the track row stores it: an empty one is none.
pub open spec fn row_genre_spec(g: Option<String>) -> Option<Seq<char>> {
    match g {
        Some(s) => if s@.len() > 0 {
            Some(s@)
        } else {
            None
        },
        None => None,
    }
}

pub fn row_genre(genre: &Option<String>) -> (r: Option<String>)
    ensures
        opt_view(r) == row_genre_spec(*genre),
{
    match genre {
        Some(g) => {
            if chars_of(g.as_str()).len() > 0 {
                Some(g.clone())
            } else {
                None
            }
        },
        None => None,
    }
}

/// The track detail shown for a track row and the tags read from its file.
pub fn track_detail_response(id: i64, album_id: i64, path: String, t: &TrackTags) -> (r:
    LibraryTrackDetailResponse)
    ensures
        r.id == id,
        r.album_id == album_id,
        r.path@ == path@,
        r.title@ == t.title@,
        r.artist_name@ == t.artist@,
        r.album_title@ == t.album@,
        r.track_number == u32_as_i32(t.track_number),
        r.year == u32_as_i32(t.year),
        r.disc_number == u32_as_i32(t.disc_number),
        opt_view(r.genre) == opt_view(t.genre),
        r.duration_sec == u32_as_i32(t.duration_sec),
{
    LibraryTrackDetailResponse {
        id,
        album_id,
        title: t.title.clone(),
        artist_name: t.artist.clone(),
        album_title: t.album.clone(),
        track_number: match t.track_number {
            Some(n) => Some(n as i32),
            None => None,
        },
        year: match t.year {
            Some(y) => Some(y as i32),
            None => None,
        },
        disc_number: match t.disc_number {
            Some(d) => Some(d as i32),
            None => None,
        },
        genre: crate::library::tags::clone_opt(&t.genre),
        path,
        duration_sec: match t.duration_sec {
            Some(d) => Some(d as i32),
            None => None,
        },
    }
}

} // verus!
