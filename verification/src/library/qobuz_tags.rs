//! The tags and row fields a downloaded Qobuz track is given, from the
//! album and track records the catalog returned.

use vstd::prelude::*;

use crate::library::paths::{year_from_release_date, year_spec};
use crate::library::tags::{clone_opt, opt_view, TagsView, TrackTags};
use crate::text::{chars_of, string_of, trim, trim_chars};

verus! {

/// What the tags are built from of a Qobuz album record: the display names
/// of its genre and label are the names the catalog shows for them.
#[derive(Debug, Clone)]
pub struct QobuzAlbumInfo {
    pub title: String,
    pub artist_name: Option<String>,
    pub release_date_original: Option<String>,
    pub genre_name: Option<String>,
    pub label_name: Option<String>,
}

/// What the tags are built from of a Qobuz track record.
#[derive(Debug, Clone)]
pub struct QobuzTrackInfo {
    pub id: u64,
    pub title: String,
    pub track_number: Option<u32>,
    pub duration: Option<u32>,
    pub media_number: Option<u32>,
    pub performer_name: Option<String>,
    pub genre_name: Option<String>,
    pub isrc: Option<String>,
    pub composer_name: Option<String>,
}

/// A name trimmed, when that leaves something.
pub open spec fn nonblank(o: Option<String>) -> Option<Seq<char>> {
    match o {
        Some(s) => if trim(s@).len() > 0 {
            Some(trim(s@))
        } else {
            None
        },
        None => None,
    }
}

fn nonblank_exec(o: &Option<String>) -> (r: Option<String>)
    ensures
        opt_view(r) == nonblank(*o),
{
    match o {
        Some(s) => {
            let t = trim_chars(chars_of(s.as_str()).as_slice());
            if t.len() > 0 {
                Some(string_of(t.as_slice()))
            } else {
                None
            }
        },
        None => None,
    }
}

/// A track's artist: the album artist, else the performer, else
/// `Unknown Artist` (names trimmed, blank ones skipped).
pub open spec fn resolve_artist_spec(album: QobuzAlbumInfo, track: QobuzTrackInfo) -> Seq<char> {
    match nonblank(album.artist_name) {
        Some(a) => a,
        None => match nonblank(track.performer_name) {
            Some(p) => p,
            None => "Unknown Artist"@,
        },
    }
}

pub fn resolve_artist(album: &QobuzAlbumInfo, track: &QobuzTrackInfo) -> (r: String)
    ensures
        r@ == resolve_artist_spec(*album, *track),
{
    match nonblank_exec(&album.artist_name) {
        Some(a) => a,
        None => match nonblank_exec(&track.performer_name) {
            Some(p) => p,
            None => "Unknown Artist".to_string(),
        },
    }
}

/// A track's genre: its own, else the album's.
pub open spec fn resolve_genre_spec(track_genre: Option<String>, album_genre: Option<String>) -> Option<
    Seq<char>,
> {
    match track_genre {
        Some(g) => Some(g@),
        None => opt_view(album_genre),
    }
}

pub fn resolve_genre(track_genre: &Option<String>, album_genre: &Option<String>) -> (r: Option<String>)
    ensures
        opt_view(r) == resolve_genre_spec(*track_genre, *album_genre),
{
    match track_genre {
        Some(g) => Some(g.clone()),
        None => clone_opt(album_genre),
    }
}

/// The tags a downloaded track is written with: title and numbers from the
/// track, artist and genre as resolved, album title, release year and label
/// from the album, ISRC and composer when not blank, and both Qobuz ids.
pub open spec fn qobuz_tags_spec(album: QobuzAlbumInfo, track: QobuzTrackInfo, catalog_album_id: u64) -> TagsView {
    TagsView {
        title: track.title@,
        artist: resolve_artist_spec(album, track),
        album: album.title@,
        track_number: track.track_number,
        year: match year_spec(opt_view(album.release_date_original)) {
            Some(y) => Some(y as u32),
            None => None,
        },
        disc_number: track.media_number,
        track_total: None,
        disc_total: None,
        genre: resolve_genre_spec(track.genre_name, album.genre_name),
        duration_sec: None,
        qobuz_track_id: Some(track.id),
        qobuz_album_id: Some(catalog_album_id),
        label: opt_view(album.label_name),
        isrc: nonblank(track.isrc),
        composer: nonblank(track.composer_name),
    }
}

pub fn track_tags_from_qobuz(album: &QobuzAlbumInfo, track: &QobuzTrackInfo, catalog_album_id: u64) -> (r:
    TrackTags)
    ensures
        r.tags_view() == qobuz_tags_spec(*album, *track, catalog_album_id),
{
    let date = match &album.release_date_original {
        Some(d) => Some(d.as_str()),
        None => None,
    };
    let year = match year_from_release_date(date) {
        Some(y) => Some(y as u32),
        None => None,
    };
    TrackTags {
        title: track.title.clone(),
        artist: resolve_artist(album, track),
        album: album.title.clone(),
        track_number: track.track_number,
        year,
        disc_number: track.media_number,
        track_total: None,
        disc_total: None,
        genre: resolve_genre(&track.genre_name, &album.genre_name),
        duration_sec: None,
        qobuz_track_id: Some(track.id),
        qobuz_album_id: Some(catalog_album_id),
        label: clone_opt(&album.label_name),
        isrc: nonblank_exec(&track.isrc),
        composer: nonblank_exec(&track.composer_name),
    }
}

/// The disc number and genre stored on a downloaded track's row.
pub fn track_db_fields_from_qobuz(album: &QobuzAlbumInfo, track: &QobuzTrackInfo) -> (r: (
    Option<i32>,
    Option<String>,
))
    ensures
        r.0 == (match track.media_number {
            Some(n) => Some(n as i32),
            None => None,
        }),
        opt_view(r.1) == resolve_genre_spec(track.genre_name, album.genre_name),
{
    let disc = match track.media_number {
        Some(n) => Some(n as i32),
        None => None,
    };
    (disc, resolve_genre(&track.genre_name, &album.genre_name))
}

/// The row fields agree with the tags the same track is written with.
pub proof fn lemma_db_fields_match_tags(album: QobuzAlbumInfo, track: QobuzTrackInfo, id: u64)
    ensures
        qobuz_tags_spec(album, track, id).genre == resolve_genre_spec(track.genre_name, album.genre_name),
        qobuz_tags_spec(album, track, id).disc_number == track.media_number,
{
}

} // verus!
