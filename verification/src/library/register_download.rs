//! After a Qobuz album download: the album and track rows that make it show
//! in the library without a scan.

use vstd::prelude::*;

use crate::error::ApiError;
use crate::library::paths::{
    track_path, track_path_spec, year_from_release_date, year_spec, AlbumPathInfo, TrackPathInfo,
};
use crate::library::qobuz_tags::{
    resolve_genre_spec, track_db_fields_from_qobuz, QobuzAlbumInfo, QobuzTrackInfo,
};
use crate::library::storage::{parent_spec, storage_error_matches, storage_parse_spec, StoragePath};
use crate::library::tags::opt_view;
use crate::text::{chars_of, trim};

verus! {

/// Where a downloaded track lives relative to the library root:
/// `Artist/YYYY - Album/NN - Title.ext`.
pub fn track_relative_path(album: &AlbumPathInfo, track: &TrackPathInfo, quality: u8) -> (r: String)
    ensures
        r@ == track_path_spec(Seq::empty(), *album, *track, quality),
{
    proof {
        reveal_strlit("");
    }
    track_path("", album, track, quality)
}

pub open spec fn path_album(a: QobuzAlbumInfo) -> AlbumPathInfo {
    AlbumPathInfo {
        artist_name: a.artist_name,
        title: a.title,
        release_date_original: a.release_date_original,
    }
}

pub open spec fn path_track(t: QobuzTrackInfo) -> TrackPathInfo {
    TrackPathInfo { title: t.title, track_number: t.track_number }
}

fn path_album_exec(a: &QobuzAlbumInfo) -> (r: AlbumPathInfo)
    ensures
        opt_view(r.artist_name) == opt_view(a.artist_name),
        r.title@ == a.title@,
        opt_view(r.release_date_original) == opt_view(a.release_date_original),
{
    AlbumPathInfo {
        artist_name: crate::library::tags::clone_opt(&a.artist_name),
        title: a.title.clone(),
        release_date_original: crate::library::tags::clone_opt(&a.release_date_original),
    }
}

/// The artist an album row is linked to: the album artist unless blank,
/// else `Unknown Artist`.
pub open spec fn registration_artist_spec(name: Option<String>) -> Seq<char> {
    match name {
        Some(n) => if trim(n@).len() > 0 {
            n@
        } else {
            "Unknown Artist"@
        },
        None => "Unknown Artist"@,
    }
}

pub fn registration_artist(name: &Option<String>) -> (r: String)
    ensures
        r@ == registration_artist_spec(*name),
{
    match name {
        Some(n) => {
            if crate::text::trim_chars(chars_of(n.as_str()).as_slice()).len() > 0 {
                n.clone()
            } else {
                "Unknown Artist".to_string()
            }
        },
        None => "Unknown Artist".to_string(),
    }
}

/// A track row written for a downloaded track.
#[derive(Debug, Clone)]
pub struct TrackUpsertPlan {
    pub title: String,
    pub track_number: Option<i32>,
    pub year: Option<i32>,
    pub disc_number: Option<i32>,
    pub genre: Option<String>,
    pub qobuz_track_id: i64,
    pub path: String,
    pub duration_sec: Option<i32>,
}

/// The rows a downloaded album is registered with.
#[derive(Debug, Clone)]
pub struct AlbumRegistration {
    pub artist_name: String,
    pub title: String,
    pub year: Option<i32>,
    pub qobuz_album_id: i64,
    pub path: String,
    pub tracks: Vec<TrackUpsertPlan>,
}

pub open spec fn opt_u32_as_i32(o: Option<u32>) -> Option<i32> {
    match o {
        Some(n) => Some(n as i32),
        None => None,
    }
}

/// The row of downloaded track `t`: its title, numbers, duration and Qobuz
/// id, the album year, its genre as resolved, and its relative path.
pub open spec fn track_plan_matches(p: TrackUpsertPlan, a: QobuzAlbumInfo, t: QobuzTrackInfo, format_id: u8) -> bool {
    &&& p.title@ == t.title@
    &&& p.track_number == opt_u32_as_i32(t.track_number)
    &&& p.year == year_spec(opt_view(a.release_date_original))
    &&& p.disc_number == opt_u32_as_i32(t.media_number)
    &&& opt_view(p.genre) == resolve_genre_spec(t.genre_name, a.genre_name)
    &&& p.qobuz_track_id == t.id as i64
    &&& p.path@ == track_path_spec(Seq::empty(), path_album(a), path_track(t), format_id)
    &&& p.duration_sec == opt_u32_as_i32(t.duration)
}

/// The registration of a downloaded album: nothing for an album without
/// tracks; else the album row (artist, title, release year, the catalog id
/// the favorites list joins on, and the directory of its first track) and
/// one row per track. A first-track path that does not parse is refused.
pub open spec fn registration_matches(
    r: Result<Option<AlbumRegistration>, ApiError>,
    a: QobuzAlbumInfo,
    ts: Seq<QobuzTrackInfo>,
    catalog_id: u64,
    format_id: u8,
) -> bool {
    if ts.len() == 0 {
        r matches Ok(None)
    } else {
        match storage_parse_spec(track_path_spec(Seq::empty(), path_album(a), path_track(ts[0]), format_id)) {
            Err(k) => r matches Err(e) && storage_error_matches(e, k),
            Ok(first) => r matches Ok(Some(reg)) && {
                &&& reg.artist_name@ == registration_artist_spec(a.artist_name)
                &&& reg.title@ == a.title@
                &&& reg.year == year_spec(opt_view(a.release_date_original))
                &&& reg.qobuz_album_id == catalog_id as i64
                &&& reg.path@ == (match parent_spec(first) {
                    Some(p) => p,
                    None => Seq::empty(),
                })
                &&& reg.tracks@.len() == ts.len()
                &&& forall|i: int|
                    0 <= i < ts.len() ==> track_plan_matches(
                        #[trigger] reg.tracks@[i],
                        a,
                        ts[i],
                        format_id,
                    )
            },
        }
    }
}

/// The rows `register_album_from_qobuz_download_storage` writes for a
/// downloaded album; file sizes are read from storage afterwards.
pub fn register_album_plan(
    album: &QobuzAlbumInfo,
    tracks: &Vec<QobuzTrackInfo>,
    catalog_id: u64,
    format_id: u8,
) -> (r: Result<Option<AlbumRegistration>, ApiError>)
    ensures
        registration_matches(r, *album, tracks@, catalog_id, format_id),
{
    if tracks.len() == 0 {
        return Ok(None);
    }
    let pa = path_album_exec(album);
    let pt0 = TrackPathInfo { title: tracks[0].title.clone(), track_number: tracks[0].track_number };
    let first_rel = track_relative_path(&pa, &pt0, format_id);
    proof {
        lemma_path_spec_views(pa, path_album(*album), pt0, path_track(tracks@[0]), format_id);
    }
    let first = StoragePath::parse(first_rel.as_str())?;
    let path = match first.parent() {
        Some(p) => p.as_str().to_string(),
        None => String::new(),
    };
    let date = match &album.release_date_original {
        Some(d) => Some(d.as_str()),
        None => None,
    };
    let year = year_from_release_date(date);
    let mut rows: Vec<TrackUpsertPlan> = Vec::new();
    let mut i: usize = 0;
    while i < tracks.len()
        invariant
            i <= tracks.len(),
            opt_view(pa.artist_name) == opt_view(album.artist_name),
            pa.title@ == album.title@,
            opt_view(pa.release_date_original) == opt_view(album.release_date_original),
            year == year_spec(opt_view(album.release_date_original)),
            rows@.len() == i,
            forall|j: int| 0 <= j < i ==> track_plan_matches(#[trigger] rows@[j], *album, tracks@[j], format_id),
        decreases tracks.len() - i,
    {
        let t = &tracks[i];
        let pt = TrackPathInfo { title: t.title.clone(), track_number: t.track_number };
        let rel = track_relative_path(&pa, &pt, format_id);
        proof {
            lemma_path_spec_views(pa, path_album(*album), pt, path_track(*t), format_id);
        }
        let (disc_number, genre) = track_db_fields_from_qobuz(album, t);
        rows.push(
            TrackUpsertPlan {
                title: t.title.clone(),
                track_number: match t.track_number {
                    Some(n) => Some(n as i32),
                    None => None,
                },
                year,
                disc_number,
                genre,
                qobuz_track_id: t.id as i64,
                path: rel,
                duration_sec: match t.duration {
                    Some(d) => Some(d as i32),
                    None => None,
                },
            },
        );
        i += 1;
    }
    Ok(
        Some(
            AlbumRegistration {
                artist_name: registration_artist(&album.artist_name),
                title: album.title.clone(),
                year,
                qobuz_album_id: catalog_id as i64,
                path,
                tracks: rows,
            },
        ),
    )
}

/// The path of a track depends on the fields' texts only.
proof fn lemma_path_spec_views(
    a1: AlbumPathInfo,
    a2: AlbumPathInfo,
    t1: TrackPathInfo,
    t2: TrackPathInfo,
    quality: u8,
)
    requires
        opt_view(a1.artist_name) == opt_view(a2.artist_name),
        a1.title@ == a2.title@,
        opt_view(a1.release_date_original) == opt_view(a2.release_date_original),
        t1.title@ == t2.title@,
        t1.track_number == t2.track_number,
    ensures
        track_path_spec(Seq::empty(), a1, t1, quality) == track_path_spec(Seq::empty(), a2, t2, quality),
{
}

} // verus!
