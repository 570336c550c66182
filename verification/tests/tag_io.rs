use euterpe_server::error::ApiError;
use euterpe_server::library::tag_io::{
    parse_qobuz_ids, qobuz_comment, read_tags, read_tags_with_rel, tag_write_plan,
    track_tags_from_fields, GenreWrite, TagFields,
};
use euterpe_server::library::tags::TrackTags;

fn tags_with_ids(track: Option<u64>, album: Option<u64>) -> TrackTags {
    TrackTags {
        title: "Song".into(),
        artist: "Artist".into(),
        album: "Album".into(),
        track_number: Some(3),
        year: None,
        disc_number: Some(1),
        track_total: None,
        disc_total: None,
        genre: None,
        duration_sec: None,
        qobuz_track_id: track,
        qobuz_album_id: album,
        label: Some(String::new()),
        isrc: Some("USABC1234567".into()),
        composer: None,
    }
}

#[test]
fn qobuz_ids_read_from_comment_words() {
    let r = parse_qobuz_ids(Some("QOBUZ_TRACK_ID:12 QOBUZ_ALBUM_ID:34"), None);
    assert_eq!(r, (Some(12), Some(34)));
}

#[test]
fn qobuz_ids_description_overrides_comment() {
    let r = parse_qobuz_ids(Some("QOBUZ_TRACK_ID:1"), Some("QOBUZ_TRACK_ID:2"));
    assert_eq!(r, (Some(2), None));
}

#[test]
fn qobuz_ids_unparsable_value_clears_id() {
    let r = parse_qobuz_ids(Some("QOBUZ_TRACK_ID:7 QOBUZ_TRACK_ID:x"), None);
    assert_eq!(r, (None, None));
}

#[test]
fn qobuz_ids_absent_without_tag_text() {
    assert_eq!(parse_qobuz_ids(None, None), (None, None));
    assert_eq!(parse_qobuz_ids(Some("hello world"), None), (None, None));
}

#[test]
fn qobuz_comment_formats_known_ids() {
    assert_eq!(qobuz_comment(Some(5), Some(9)), "QOBUZ_TRACK_ID:5 QOBUZ_ALBUM_ID:9");
    assert_eq!(qobuz_comment(None, Some(9)), "QOBUZ_ALBUM_ID:9");
    assert_eq!(qobuz_comment(Some(5), None), "QOBUZ_TRACK_ID:5");
    assert_eq!(qobuz_comment(None, None), "");
}

#[test]
fn qobuz_comment_reads_back() {
    let c = qobuz_comment(Some(123), Some(456));
    assert_eq!(parse_qobuz_ids(Some(&c), None), (Some(123), Some(456)));
}

#[test]
fn fields_fill_missing_text_with_unknown() {
    let fields = TagFields {
        track: Some(4),
        genre: Some("Jazz".into()),
        comment: Some("QOBUZ_ALBUM_ID:77".into()),
        label: Some(String::new()),
        composer: Some("Monk".into()),
        ..TagFields::default()
    };
    let t = track_tags_from_fields("/lib/A/B/01 - x.flac", Some(&fields), 215);
    assert_eq!(t.title, "Unknown Title");
    assert_eq!(t.artist, "Unknown Artist");
    assert_eq!(t.album, "Unknown Album");
    assert_eq!(t.track_number, Some(4));
    assert_eq!(t.genre.as_deref(), Some("Jazz"));
    assert_eq!(t.duration_sec, Some(215));
    assert_eq!(t.qobuz_album_id, Some(77));
    assert_eq!(t.qobuz_track_id, None);
    assert_eq!(t.label, None);
    assert_eq!(t.composer.as_deref(), Some("Monk"));
}

#[test]
fn file_without_tag_uses_path() {
    let t = track_tags_from_fields("/music/Miles Davis/1959 - Kind of Blue/02 - Freddie.flac", None, 60);
    assert_eq!(t.artist, "Miles Davis");
    assert_eq!(t.album, "Kind of Blue");
    assert_eq!(t.year, Some(1959));
    assert_eq!(t.track_number, Some(2));
    assert_eq!(t.title, "Freddie");
    assert_eq!(t.duration_sec, Some(60));
}

#[test]
fn unreadable_file_falls_back_to_path() {
    let r = read_tags(
        "/music/Miles Davis/1959 - Kind of Blue/02 - Freddie.flac",
        Err(ApiError::Message("probe failed".into())),
    );
    let t = r.expect("fallback");
    assert_eq!(t.artist, "Miles Davis");
    assert_eq!(t.title, "Freddie");
    assert_eq!(t.duration_sec, None);
}

#[test]
fn unreadable_file_with_rel_path_uses_hints() {
    let r = read_tags_with_rel(
        "/lib/qobuz/Genesis - Selling England/03 - Firth.flac",
        Some("qobuz/Genesis - Selling England/03 - Firth.flac"),
        Err(ApiError::Message("read failed".into())),
    );
    let t = r.expect("fallback");
    assert_eq!(t.artist, "Genesis");
}

#[test]
fn readable_file_uses_tag() {
    let fields = TagFields { title: Some("Real".into()), ..TagFields::default() };
    let t = read_tags("/x/y/z.flac", Ok((Some(fields), 10))).expect("tags");
    assert_eq!(t.title, "Real");
}

#[test]
fn write_plan_sets_comment_and_drops_empty_text() {
    let plan = tag_write_plan(&tags_with_ids(Some(11), Some(22)));
    assert_eq!(plan.title, "Song");
    assert_eq!(plan.track, Some(3));
    assert_eq!(plan.year, None);
    assert_eq!(plan.comment.as_deref(), Some("QOBUZ_TRACK_ID:11 QOBUZ_ALBUM_ID:22"));
    assert_eq!(plan.label, None);
    assert_eq!(plan.isrc.as_deref(), Some("USABC1234567"));
    assert!(matches!(plan.genre, GenreWrite::Keep));
}

#[test]
fn write_plan_genre_cases() {
    let mut t = tags_with_ids(None, None);
    assert!(tag_write_plan(&t).comment.is_none());
    t.genre = Some(String::new());
    assert!(matches!(tag_write_plan(&t).genre, GenreWrite::Remove));
    t.genre = Some("Rock".into());
    match tag_write_plan(&t).genre {
        GenreWrite::Assign(g) => assert_eq!(g, "Rock"),
        _ => panic!("genre should be assigned"),
    }
}
