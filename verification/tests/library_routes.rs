use euterpe_server::api::keyset::SortOrder;
use euterpe_server::api::library::{
    CueTrack, LibraryAlbumTagsPatchRequest, LibraryTrackTagsPatchRequest,
};
use euterpe_server::db::albums::AlbumRow;
use euterpe_server::library::storage::StoragePath;
use euterpe_server::library::tags::TrackTags;
use euterpe_server::routes::library::{
    album_list_order, album_tags_patch, album_tags_row_plan, check_cue_split, default_album_sort,
    default_limit, reject_unsafe_cue_audio_path, row_genre, scan_root, selected_track_count,
    storage_path_is_under, stream_track_path, track_detail_response, track_patch_touches_album,
    track_tags_patch, track_tags_row_plan, ArtistLink, StartLibraryScanQuery,
};

fn album() -> AlbumRow {
    AlbumRow {
        id: 7,
        artist_id: Some(3),
        title: "Old Title".into(),
        year: Some(1999),
        qobuz_album_id: None,
        path: Some("A/Old Title".into()),
        cover_path: None,
    }
}

fn cue_track(selected: bool) -> CueTrack {
    CueTrack {
        number: 1,
        artist: None,
        title: "T".into(),
        genre: None,
        start_index: "00:00:00".into(),
        pregap: None,
        duration: None,
        selected,
    }
}

#[test]
fn listing_defaults() {
    assert_eq!(default_limit(), 50);
    assert_eq!(default_album_sort(), "title");
    assert_eq!(album_list_order(None).unwrap(), SortOrder::Asc);
    assert_eq!(album_list_order(Some("desc")).unwrap(), SortOrder::Desc);
    assert!(album_list_order(Some("sideways")).is_err());
}

#[test]
fn scan_root_parses_subtree() {
    assert!(scan_root(&StartLibraryScanQuery { root: None }).unwrap().is_none());
    let r = scan_root(&StartLibraryScanQuery { root: Some("Artist//Album/".into()) }).unwrap();
    assert_eq!(r.unwrap().as_str(), "Artist/Album");
    assert!(scan_root(&StartLibraryScanQuery { root: Some("../x".into()) }).is_err());
}

#[test]
fn stream_path_checks() {
    assert_eq!(stream_track_path("  ").unwrap_err().message(), "track has no file path");
    assert_eq!(stream_track_path("A/notes.txt").unwrap_err().message(), "not an audio file");
    assert_eq!(stream_track_path(" A/B/01.flac ").unwrap().as_str(), "A/B/01.flac");
}

#[test]
fn under_checks_components() {
    let base = StoragePath::parse("A/B").unwrap();
    assert!(storage_path_is_under(&StoragePath::parse("A/B/c.cue").unwrap(), &base));
    assert!(storage_path_is_under(&base, &base));
    assert!(!storage_path_is_under(&StoragePath::parse("A/BC/c.cue").unwrap(), &base));
    assert!(storage_path_is_under(&base, &StoragePath::root()));
}

#[test]
fn cue_audio_paths() {
    assert!(reject_unsafe_cue_audio_path("disc.flac").is_ok());
    assert!(reject_unsafe_cue_audio_path("/etc/disc.flac").is_err());
    assert!(reject_unsafe_cue_audio_path("../disc.flac").is_err());
}

#[test]
fn cue_split_checks_in_order() {
    let e = check_cue_split(None, true, "keep", "A/x.cue", "x.flac").unwrap_err();
    assert_eq!(e.message(), "album has no directory path");
    let e = check_cue_split(Some("A"), false, "keep", "A/x.cue", "x.flac").unwrap_err();
    assert_eq!(e.message(), "CUE has validation errors");
    let e = check_cue_split(Some("A"), true, "shred", "A/x.cue", "x.flac").unwrap_err();
    assert_eq!(e.message(), "invalid source_file_policy");
    let e = check_cue_split(Some("A"), true, "keep", "B/x.cue", "x.flac").unwrap_err();
    assert_eq!(e.message(), "CUE path is outside album directory");
    let e = check_cue_split(Some("A"), true, "keep", "A/x.cue", "../x.flac").unwrap_err();
    assert_eq!(e.message(), "invalid CUE audio path");
    let (a, c) = check_cue_split(Some("A"), true, "delete_after_success", "A/x.cue", "x.flac").unwrap();
    assert_eq!(a.as_str(), "A");
    assert_eq!(c.as_str(), "A/x.cue");
}

#[test]
fn counts_selected_tracks() {
    assert_eq!(selected_track_count(&vec![cue_track(true), cue_track(false), cue_track(true)]), 2);
    assert_eq!(selected_track_count(&Vec::new()), 0);
}

#[test]
fn album_patch_row_plan() {
    let body = LibraryAlbumTagsPatchRequest {
        artist_name: None,
        album_title: None,
        year: None,
        genre: Some("Jazz".into()),
        track_total: Some(12),
        disc_total: None,
    };
    assert!(album_tags_row_plan(&album(), &body).is_none());
    let p = album_tags_patch(&body);
    assert_eq!(p.track_total, Some(12));
    assert_eq!(p.genre.as_deref(), Some("Jazz"));

    let body = LibraryAlbumTagsPatchRequest { year: Some(2001), ..body };
    let plan = album_tags_row_plan(&album(), &body).unwrap();
    assert!(matches!(plan.artist, ArtistLink::Keep));
    assert_eq!(plan.title, "Old Title");
    assert_eq!(plan.year, Some(2001));

    let body = LibraryAlbumTagsPatchRequest {
        artist_name: Some("New".into()),
        album_title: Some("New Title".into()),
        year: None,
        ..body
    };
    let plan = album_tags_row_plan(&album(), &body).unwrap();
    match plan.artist {
        ArtistLink::ByName(n) => assert_eq!(n, "New"),
        ArtistLink::Keep => panic!("artist should be linked"),
    }
    assert_eq!(plan.title, "New Title");
    assert_eq!(plan.year, Some(1999));
}

#[test]
fn track_patch_row_plan() {
    let mut body = LibraryTrackTagsPatchRequest {
        title: Some("T".into()),
        artist_name: Some("X".into()),
        album_title: None,
        track_number: Some(2),
        year: None,
        disc_number: None,
        genre: None,
    };
    assert!(!track_patch_touches_album(&body));
    assert_eq!(track_tags_patch(&body).track_number, Some(2));
    body.album_title = Some("Al".into());
    assert!(track_patch_touches_album(&body));
    let plan = track_tags_row_plan(&album(), &body, Some(2010));
    assert_eq!(plan.title, "Al");
    assert_eq!(plan.year, Some(2010));
    body.artist_name = None;
    body.year = Some(2020);
    assert!(track_patch_touches_album(&body));
    let plan = track_tags_row_plan(&album(), &body, Some(2010));
    assert!(matches!(plan.artist, ArtistLink::Keep));
    assert_eq!(plan.title, "Old Title");
    assert_eq!(plan.year, Some(2020));
}

#[test]
fn row_genre_drops_empty() {
    assert_eq!(row_genre(&Some(String::new())), None);
    assert_eq!(row_genre(&Some("Rock".into())).as_deref(), Some("Rock"));
    assert_eq!(row_genre(&None), None);
}

#[test]
fn detail_from_tags() {
    let t = TrackTags {
        title: "S".into(),
        artist: "A".into(),
        album: "B".into(),
        track_number: Some(4),
        year: Some(1990),
        disc_number: None,
        track_total: None,
        disc_total: None,
        genre: Some("G".into()),
        duration_sec: Some(300),
        qobuz_track_id: None,
        qobuz_album_id: None,
        label: None,
        isrc: None,
        composer: None,
    };
    let d = track_detail_response(1, 2, "A/B/04.flac".into(), &t);
    assert_eq!(d.track_number, Some(4));
    assert_eq!(d.year, Some(1990));
    assert_eq!(d.duration_sec, Some(300));
    assert_eq!(d.path, "A/B/04.flac");
}
