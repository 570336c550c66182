use euterpe_server::library::tags::{
    apply_album_patch, apply_patch, audio_content_type, is_audio_file, path_file_title,
    tags_from_path, AlbumTagsPatch, TrackTags, TrackTagsPatch,
};

fn base_tags() -> TrackTags {
    TrackTags {
        title: "A".into(),
        artist: "B".into(),
        album: "C".into(),
        track_number: Some(1),
        year: Some(2000),
        disc_number: None,
        track_total: None,
        disc_total: None,
        genre: None,
        duration_sec: None,
        qobuz_track_id: None,
        qobuz_album_id: None,
        label: None,
        isrc: None,
        composer: None,
    }
}

#[test]
fn apply_patch_changes_fields() {
    let tags = base_tags();
    let patched = apply_patch(
        &tags,
        &TrackTagsPatch {
            title: Some("New".into()),
            ..Default::default()
        },
    );
    assert_eq!(patched.title, "New");
    assert_eq!(patched.artist, "B");
}

#[test]
fn apply_album_patch_preserves_per_track_fields() {
    let tags = TrackTags {
        title: "Song A".into(),
        artist: "Old Artist".into(),
        album: "Old Album".into(),
        track_number: Some(3),
        year: Some(2000),
        disc_number: Some(1),
        track_total: None,
        disc_total: None,
        genre: None,
        duration_sec: None,
        qobuz_track_id: None,
        qobuz_album_id: None,
        label: None,
        isrc: None,
        composer: None,
    };
    let patched = apply_album_patch(
        &tags,
        &AlbumTagsPatch {
            artist: Some("New Artist".into()),
            album: Some("New Album".into()),
            track_total: Some(10),
            disc_total: Some(2),
            ..Default::default()
        },
    );
    assert_eq!(patched.title, "Song A");
    assert_eq!(patched.track_number, Some(3));
    assert_eq!(patched.disc_number, Some(1));
    assert_eq!(patched.artist, "New Artist");
    assert_eq!(patched.track_total, Some(10));
    assert_eq!(patched.disc_total, Some(2));
}

#[test]
fn is_audio_file_recognizes_extensions() {
    assert!(is_audio_file("/a/track.flac"));
    assert!(is_audio_file("/a/track.MP3"));
    assert!(is_audio_file("/a/track.m4a"));
    assert!(!is_audio_file("/a/readme.txt"));
}

#[test]
fn tags_from_path_qobuz_layout_uses_album_folder_artist() {
    let rel = "Qobuz/Genesis - The Lamb Lies Down On Broadway [Cartridge 2] UK 1974/Genesis - The Lamb Lies Down On Broadway [Cartridge 2].m4a";
    let path = format!("/music/{rel}");
    let tags = tags_from_path(&path, Some(rel));
    assert_eq!(tags.artist, "Genesis");
    assert!(tags.album.contains("Lamb Lies Down"));
    assert!(tags.title.contains("Lamb") || tags.title.contains("Genesis"));
}

#[test]
fn tags_from_path_standard_artist_album_layout() {
    let rel = "Genesis/1974 - The Lamb/01 - In The Cage.flac";
    let path = format!("/music/{rel}");
    let tags = tags_from_path(&path, Some(rel));
    assert_eq!(tags.artist, "Genesis");
    assert_eq!(tags.album, "The Lamb");
    assert_eq!(tags.title, "In The Cage");
    assert_eq!(tags.track_number, Some(1));
}

#[test]
fn tags_from_path_without_relative_hints() {
    let tags = tags_from_path("/downloads/1999 - Album/02 - Two.flac", None);
    assert_eq!(tags.title, "Two");
    assert_eq!(tags.track_number, Some(2));
    assert_eq!(tags.album, "Album");
    assert_eq!(tags.year, Some(1999));
    assert_eq!(tags.artist, "1999");
    let tags = tags_from_path("/music/Band/Record/Song.mp3", None);
    assert_eq!(tags.artist, "Band");
    assert_eq!(tags.album, "Record");
    assert_eq!(tags.title, "Song");
    assert_eq!(tags.track_number, None);
}

#[test]
fn album_patch_empty_genre_clears() {
    let mut tags = base_tags();
    tags.genre = Some("Rock".into());
    let patched = apply_album_patch(
        &tags,
        &AlbumTagsPatch {
            genre: Some(String::new()),
            year: Some(1977),
            ..Default::default()
        },
    );
    assert_eq!(patched.genre, None);
    assert_eq!(patched.year, Some(1977));
    assert_eq!(patched.title, "A");
}

#[test]
fn track_patch_keeps_unpatched_fields() {
    let mut tags = base_tags();
    tags.label = Some("L".into());
    tags.track_total = Some(9);
    let patched = apply_patch(
        &tags,
        &TrackTagsPatch {
            genre: Some("Jazz".into()),
            disc_number: Some(2),
            ..Default::default()
        },
    );
    assert_eq!(patched.genre.as_deref(), Some("Jazz"));
    assert_eq!(patched.disc_number, Some(2));
    assert_eq!(patched.track_number, Some(1));
    assert_eq!(patched.label.as_deref(), Some("L"));
    assert_eq!(patched.track_total, Some(9));
}

#[test]
fn audio_content_types() {
    assert_eq!(audio_content_type("a/b.FLAC"), "audio/flac");
    assert_eq!(audio_content_type("a/b.mp3"), "audio/mpeg");
    assert_eq!(audio_content_type("a/b.aif"), "audio/aiff");
    assert_eq!(audio_content_type("a/b"), "application/octet-stream");
    assert_eq!(audio_content_type("a/.flac"), "application/octet-stream");
}

#[test]
fn file_title_from_name() {
    assert_eq!(path_file_title("/x/03 - Song.flac"), "Song");
    assert_eq!(path_file_title("/x/Song.flac"), "Song");
}
