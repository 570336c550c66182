use euterpe_server::db::albums::AlbumRow;
use euterpe_server::db::tracks::TrackRow;
use euterpe_server::integrations::apply::{
    album_dir_for_apply, lookup_context_for, match_track, normalize_track_title,
    path_hints_for_album, plan_track_apply, release_names_artist, TrackApplyPlan,
};
use euterpe_server::integrations::catalog::{
    catalog_entries, default_display_name, IntegrationProvider, IntegrationType,
};
use euterpe_server::integrations::types::{AlbumMetadataRelease, AlbumMetadataTrack};

fn meta_tracks() -> Vec<AlbumMetadataTrack> {
    vec![
        AlbumMetadataTrack {
            title: "Dare To Rebel".into(),
            track_number: Some(1),
            disc_number: Some(1),
            year: None,
            genre: None,
        },
        AlbumMetadataTrack {
            title: "Woven Spells of a Demon".into(),
            track_number: Some(2),
            disc_number: Some(1),
            year: None,
            genre: None,
        },
    ]
}

#[test]
fn match_track_uses_path_number_when_db_tags_wrong() {
    let meta = meta_tracks();
    assert_eq!(
        match_track(&meta, Some(2), "Dare To Rebel").unwrap().title,
        "Woven Spells of a Demon"
    );
}

#[test]
fn match_track_by_path_title_when_numbers_missing() {
    let meta = meta_tracks();
    assert_eq!(
        match_track(&meta, None, "woven spells of a demon")
            .unwrap()
            .title,
        "Woven Spells of a Demon"
    );
}

#[test]
fn match_track_does_not_default_to_first() {
    let meta = meta_tracks();
    assert!(match_track(&meta, None, "").is_none());
}

#[test]
fn match_track_falls_back_to_position() {
    let mut meta = meta_tracks();
    meta[0].track_number = None;
    meta[1].track_number = None;
    assert_eq!(match_track(&meta, Some(2), "x").unwrap().title, "Woven Spells of a Demon");
    assert!(match_track(&meta, Some(3), "nothing").is_none());
}

#[test]
fn normalized_titles_drop_one_digit_prefix() {
    assert_eq!(normalize_track_title(" 3 - Song "), "song");
    assert_eq!(normalize_track_title("12 - Song"), "12 - song");
    assert_eq!(normalize_track_title("ÄRA"), "ära");
}

#[test]
fn path_hints_for_album_from_track_path() {
    let h = path_hints_for_album(
        None,
        &["Pg.lost/2009 - In Never Out/01 - Prahanien.flac".into()],
    )
    .unwrap();
    assert_eq!(h.artist_name, "Pg.lost");
    assert_eq!(h.album_title, "In Never Out");
    assert_eq!(h.year, Some(2009));
    assert_eq!(h.track_title.as_deref(), Some("Prahanien"));
}

#[test]
fn path_hints_prefer_album_directory() {
    let h = path_hints_for_album(
        Some("Band/2011 - Real Title"),
        &["elsewhere/01 - Intro.flac".into()],
    )
    .unwrap();
    assert_eq!(h.artist_name, "Band");
    assert_eq!(h.album_title, "Real Title");
    assert_eq!(h.track_number, Some(1));
}

fn track(path: &str, title: &str, number: Option<i32>) -> TrackRow {
    TrackRow {
        id: 1,
        album_id: 1,
        title: title.into(),
        track_number: number,
        year: None,
        disc_number: None,
        genre: None,
        qobuz_track_id: None,
        path: path.into(),
        duration_sec: Some(100),
        file_mtime: None,
        file_hash: None,
        file_size: None,
    }
}

#[test]
fn lookup_context_uses_path_hints() {
    let album = AlbumRow {
        id: 1,
        artist_id: None,
        title: "Db Title".into(),
        year: Some(1999),
        qobuz_album_id: None,
        path: Some("Band/Album".into()),
        cover_path: None,
    };
    let rows = vec![track("Band/Album/02 - Two.flac", "Wrong", Some(7))];
    let ctx = lookup_context_for(&album, "Db Artist", &rows);
    assert_eq!(ctx.artist_name, "Band");
    assert_eq!(ctx.album_title, "Album");
    assert_eq!(ctx.year, Some(1999));
    assert_eq!(ctx.tracks[0].title, "Two");
    assert_eq!(ctx.tracks[0].track_number, Some(2));
    let unplaced = AlbumRow {
        path: None,
        ..album.clone()
    };
    let ctx = lookup_context_for(&unplaced, "Db Artist", &[track("loose.flac", "Loose", None)]);
    assert_eq!(ctx.artist_name, "Db Artist");
    assert_eq!(ctx.album_title, "Db Title");
    assert_eq!(ctx.tracks[0].title, "Loose");
}

fn release() -> AlbumMetadataRelease {
    AlbumMetadataRelease {
        title: "Apply Album Remastered".into(),
        artist_name: "Apply Artist".into(),
        year: Some(2024),
        genre: Some("Post Rock".into()),
        tracks: vec![AlbumMetadataTrack {
            title: "New Title".into(),
            track_number: Some(1),
            disc_number: Some(1),
            year: None,
            genre: None,
        }],
        cover_url: None,
    }
}

#[test]
fn plan_patches_matched_track() {
    let t = track("Apply Artist/Apply Album/01 - Old.wav", "Old", Some(1));
    match plan_track_apply(&t, &release()) {
        TrackApplyPlan::Update(patch, fields) => {
            assert_eq!(patch.title.as_deref(), Some("New Title"));
            assert_eq!(patch.album.as_deref(), Some("Apply Album Remastered"));
            assert_eq!(patch.genre.as_deref(), Some("Post Rock"));
            assert_eq!(patch.year, Some(2024));
            assert_eq!(fields.year, Some(2024));
            assert_eq!(fields.track_number, Some(1));
        }
        TrackApplyPlan::Skip(w) => panic!("unexpected skip: {w}"),
    }
}

#[test]
fn plan_warns_for_unmatched_track() {
    let t = track("x/y/05 - Other.flac", "Other", None);
    match plan_track_apply(&t, &release()) {
        TrackApplyPlan::Skip(w) => assert_eq!(w, "no metadata match for track #5 (Other)"),
        TrackApplyPlan::Update(..) => panic!("unexpected match"),
    }
}

#[test]
fn album_dir_and_artist_checks() {
    assert_eq!(album_dir_for_apply(Some(" A/B ")).unwrap(), "A/B");
    assert_eq!(
        album_dir_for_apply(Some("  ")).unwrap_err().message(),
        "album has no directory path on disk"
    );
    assert!(album_dir_for_apply(None).is_err());
    assert!(release_names_artist("Band"));
    assert!(!release_names_artist("unknown"));
    assert!(!release_names_artist(""));
}

#[test]
fn catalog_lists_four_tag_sources() {
    let all = catalog_entries(None);
    let names: Vec<_> = all.iter().map(|e| e.provider.as_str()).collect();
    assert_eq!(names, ["musicbrainz", "discogs", "gnudb", "tracktype"]);
    assert!(all.iter().all(|e| e.integration_type == "tag_source"));
    assert!(all[1].requires_master_key);
    assert_eq!(all[3].config_schema.len(), 2);
    assert_eq!(catalog_entries(Some(IntegrationType::TagSource)).len(), 4);
    assert_eq!(default_display_name(IntegrationProvider::Gnudb), "GnuDB");
    assert_eq!(
        IntegrationProvider::parse("tracktype"),
        Some(IntegrationProvider::Tracktype)
    );
    assert_eq!(IntegrationType::parse("x"), None);
}
