use euterpe_server::library::qobuz_tags::{
    track_db_fields_from_qobuz, track_tags_from_qobuz, QobuzAlbumInfo, QobuzTrackInfo,
};

fn rich_album() -> (QobuzAlbumInfo, Vec<QobuzTrackInfo>) {
    let album = QobuzAlbumInfo {
        title: "Rich Album".into(),
        artist_name: Some("Album Artist".into()),
        release_date_original: Some("2019-06-01".into()),
        genre_name: Some("Classical".into()),
        label_name: Some("Test Label".into()),
    };
    let tracks = vec![
        QobuzTrackInfo {
            id: 1001,
            title: "One".into(),
            track_number: Some(1),
            duration: Some(200),
            media_number: Some(2),
            performer_name: Some("Soloist".into()),
            genre_name: Some("Orchestral".into()),
            isrc: Some("XX-1".into()),
            composer_name: Some("Composer".into()),
        },
        QobuzTrackInfo {
            id: 1002,
            title: "Two".into(),
            track_number: Some(2),
            duration: None,
            media_number: None,
            performer_name: None,
            genre_name: None,
            isrc: None,
            composer_name: None,
        },
    ];
    (album, tracks)
}

#[test]
fn artist_prefers_album_over_performer() {
    let (album, tracks) = rich_album();
    let tags = track_tags_from_qobuz(&album, &tracks[0], 42);
    assert_eq!(tags.artist, "Album Artist");
}

#[test]
fn artist_falls_back_to_performer() {
    let (mut album, tracks) = rich_album();
    album.artist_name = None;
    let tags = track_tags_from_qobuz(&album, &tracks[0], 42);
    assert_eq!(tags.artist, "Soloist");
}

#[test]
fn artist_unknown_when_names_blank() {
    let (mut album, tracks) = rich_album();
    album.artist_name = Some("  ".into());
    let tags = track_tags_from_qobuz(&album, &tracks[1], 42);
    assert_eq!(tags.artist, "Unknown Artist");
}

#[test]
fn genre_prefers_track_over_album() {
    let (album, tracks) = rich_album();
    let tags = track_tags_from_qobuz(&album, &tracks[0], 42);
    assert_eq!(tags.genre.as_deref(), Some("Orchestral"));
}

#[test]
fn genre_falls_back_to_album() {
    let (album, tracks) = rich_album();
    let tags = track_tags_from_qobuz(&album, &tracks[1], 42);
    assert_eq!(tags.genre.as_deref(), Some("Classical"));
}

#[test]
fn year_and_qobuz_ids() {
    let (album, tracks) = rich_album();
    let tags = track_tags_from_qobuz(&album, &tracks[0], 4242);
    assert_eq!(tags.year, Some(2019));
    assert_eq!(tags.qobuz_track_id, Some(1001));
    assert_eq!(tags.qobuz_album_id, Some(4242));
    assert_eq!(tags.disc_number, Some(2));
    assert_eq!(tags.label.as_deref(), Some("Test Label"));
    assert_eq!(tags.isrc.as_deref(), Some("XX-1"));
    assert_eq!(tags.composer.as_deref(), Some("Composer"));
}

#[test]
fn db_fields_match_tags() {
    let (album, tracks) = rich_album();
    let (disc, genre) = track_db_fields_from_qobuz(&album, &tracks[0]);
    assert_eq!(disc, Some(2));
    assert_eq!(genre.as_deref(), Some("Orchestral"));
}
