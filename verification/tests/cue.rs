use euterpe_server::error::ApiError;
use euterpe_server::library::cue::{
    album_has_cue_files, audio_format, choose_cue_file, cue_file_choices, safe_join,
};

#[test]
fn audio_format_by_extension() {
    assert_eq!(audio_format("Album/disc.FLAC"), "flac");
    assert_eq!(audio_format("a.wave"), "wav");
    assert_eq!(audio_format("a.ape"), "ape");
    assert_eq!(audio_format("a.mp4"), "m4a");
    assert_eq!(audio_format("a.WavPack"), "wv");
    assert_eq!(audio_format("a.ogg"), "unknown");
    assert_eq!(audio_format("noext"), "unknown");
}

#[test]
fn safe_join_inside_library() {
    assert_eq!(safe_join("/music", "Artist/Album").unwrap(), "/music/Artist/Album");
    assert_eq!(safe_join("/music/", "A").unwrap(), "/music/A");
}

#[test]
fn safe_join_refuses_escapes() {
    let e = safe_join("/music", "Artist/../../etc").unwrap_err();
    assert_eq!(e.message(), "path outside library");
    assert!(safe_join("/music", "/etc/passwd").is_err());
    assert!(safe_join("/music", "/music/Artist").is_ok());
}

#[test]
fn cue_presence() {
    assert!(!album_has_cue_files(None));
    assert!(!album_has_cue_files(Some(Ok(Vec::new()))));
    assert!(!album_has_cue_files(Some(Err(ApiError::Message("read_dir".into())))));
    assert!(album_has_cue_files(Some(Ok(vec!["A/x.cue".to_string()]))));
}

#[test]
fn chosen_sheet_is_query_or_first() {
    let files = vec!["A/a.cue".to_string(), "A/b.cue".to_string()];
    assert_eq!(choose_cue_file(&files, Some("A/b.cue")).unwrap(), "A/b.cue");
    assert_eq!(choose_cue_file(&files, Some("A/z.cue")).unwrap(), "A/a.cue");
    assert_eq!(choose_cue_file(&files, None).unwrap(), "A/a.cue");
    let e = choose_cue_file(&Vec::new(), None).unwrap_err();
    assert_eq!(e.message(), "album has no CUE files");
}

#[test]
fn choices_mark_selected() {
    let c = cue_file_choices(vec!["a.cue".into(), "b.cue".into()], "b.cue");
    assert!(!c[0].selected);
    assert!(c[1].selected);
    assert_eq!(c[1].path, "b.cue");
}
