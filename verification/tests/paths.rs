use euterpe_server::library::paths::{
    album_dir_name, extension_for_quality, library_path_hints, parse_album_dir_component,
    parse_track_file_stem, sanitize_component, track_path, year_from_release_date, AlbumPathInfo,
    TrackPathInfo,
};

#[test]
fn sanitize_replaces_slashes() {
    assert_eq!(sanitize_component("AC/DC"), "AC_DC");
}

#[test]
fn extension_for_hires_plus_is_flac() {
    assert_eq!(extension_for_quality(27), "flac");
}

#[test]
fn album_dir_name_with_year() {
    assert_eq!(
        album_dir_name("Test Album", Some("2019-06-01")),
        "2019 - Test Album"
    );
    assert_eq!(album_dir_name("Test Album", None), "Unknown - Test Album");
}

#[test]
fn library_path_hints_parses_qobuz_layout() {
    let h = library_path_hints("Artist/2020 - Test Album/03 - Song.flac").unwrap();
    assert_eq!(h.artist_name, "Artist");
    assert_eq!(h.album_title, "Test Album");
    assert_eq!(h.year, Some(2020));
    assert_eq!(h.track_number, Some(3));
    assert_eq!(h.track_title.as_deref(), Some("Song"));
}

#[test]
fn library_path_hints_unknown_year() {
    let h = library_path_hints("A/Unknown - Album/01 - T.flac").unwrap();
    assert_eq!(h.year, None);
    assert_eq!(h.album_title, "Album");
}

#[test]
fn parse_album_dir_plain_title() {
    let (y, t) = parse_album_dir_component("My Album");
    assert_eq!(y, None);
    assert_eq!(t, "My Album");
}

#[test]
fn track_path_layout() {
    let album = AlbumPathInfo {
        artist_name: Some("Artist".into()),
        title: "Test Album".into(),
        release_date_original: Some("2020-03-15".into()),
    };
    let track = TrackPathInfo {
        title: "Song".into(),
        track_number: Some(3),
    };
    let s = track_path("/music", &album, &track, 6);
    assert!(s.ends_with("03 - Song.flac"));
    assert!(s.contains("Artist/2020 - Test Album/"));
    assert_eq!(s, "/music/Artist/2020 - Test Album/03 - Song.flac");
}

#[test]
fn sanitize_drops_control_and_defaults_to_unknown() {
    assert_eq!(sanitize_component("  a\u{7}b:c  "), "ab_c");
    assert_eq!(sanitize_component(" \u{1} "), "unknown");
    assert_eq!(sanitize_component("x?y*z|\"<>"), "x_y_z____");
}

#[test]
fn mp3_quality_extension() {
    assert_eq!(extension_for_quality(5), "mp3");
}

#[test]
fn year_needs_four_leading_digits() {
    assert_eq!(year_from_release_date(Some("1999")), Some(1999));
    assert_eq!(year_from_release_date(Some("199")), None);
    assert_eq!(year_from_release_date(Some("abcd-01-01")), None);
    assert_eq!(year_from_release_date(Some("+123-01")), Some(123));
    assert_eq!(year_from_release_date(None), None);
}

#[test]
fn album_dir_component_variants() {
    assert_eq!(
        parse_album_dir_component("  unknown - X  "),
        (None, "X".to_string())
    );
    assert_eq!(
        parse_album_dir_component("Live - Tour"),
        (None, "Live - Tour".to_string())
    );
    assert_eq!(
        parse_album_dir_component("1984 -  Dune "),
        (Some(1984), "Dune".to_string())
    );
}

#[test]
fn track_stem_variants() {
    assert_eq!(parse_track_file_stem("07 - Intro"), (Some(7), "Intro".to_string()));
    assert_eq!(parse_track_file_stem("Intro"), (None, "Intro".to_string()));
    assert_eq!(
        parse_track_file_stem("A - B"),
        (None, "A - B".to_string())
    );
}

#[test]
fn library_path_hints_needs_three_components() {
    assert!(library_path_hints("Album/01 - T.flac").is_none());
    assert!(library_path_hints("   ").is_none());
    let h = library_path_hints(r"X\1999 - Y\02 - Z.flac").unwrap();
    assert_eq!(h.artist_name, "X");
    assert_eq!(h.year, Some(1999));
    assert_eq!(h.track_number, Some(2));
    assert_eq!(h.track_title.as_deref(), Some("Z"));
}

#[test]
fn track_path_without_artist_or_number() {
    let album = AlbumPathInfo {
        artist_name: None,
        title: "T".into(),
        release_date_original: None,
    };
    let track = TrackPathInfo {
        title: "S".into(),
        track_number: None,
    };
    assert_eq!(
        track_path("lib/", &album, &track, 5),
        "lib/Unknown Artist/Unknown - T/00 - S.mp3"
    );
}

#[test]
fn sanitized_names_are_valid_and_stable() {
    for name in ["  AC/DC: Live?  ", "\u{7}\t", "a<b>c|d*e\"f", "", "Plain Title", " x\\y "] {
        let r = sanitize_component(name);
        assert!(!r.is_empty());
        assert_eq!(r.trim(), r);
        assert!(!r.chars().any(|c| c.is_control()
            || matches!(c, '/' | '\\' | '\0' | ':' | '*' | '?' | '"' | '<' | '>' | '|')));
        assert_eq!(sanitize_component(&r), r);
    }
}

#[test]
fn album_dir_name_parses_back() {
    let (y, t) = parse_album_dir_component(&album_dir_name(" Live: at/home ", Some("1999-12-31")));
    assert_eq!(y, year_from_release_date(Some("1999-12-31")));
    assert_eq!(y, Some(1999));
    assert_eq!(t, sanitize_component(" Live: at/home "));
    let (y, t) = parse_album_dir_component(&album_dir_name("Demo", None));
    assert_eq!(y, None);
    assert_eq!(t, "Demo");
    let (y, t) = parse_album_dir_component(&album_dir_name("Old - Songs", Some("-123")));
    assert_eq!(y, Some(-123));
    assert_eq!(t, "Old - Songs");
}
