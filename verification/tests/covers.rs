use euterpe_server::library::covers::{
    check_cover_upload, choose_storage_cover, contains_album_title_tokens, cover_candidate_ext,
    cover_file_extension, cover_url, detect_cover_mime_type, image_content_type,
    is_album_cover_filename, is_allowed_upload_cover_mime, is_previous_cover_file,
    is_supported_storage_cover_ext, normalized_cover_name_tokens, primary_mime_from_header,
    contained_cover_file, qobuz_catalog_ids_for_cover, resolve_library_relative_file,
    validate_upload_content_type_header, CoverMime, Image,
};
use euterpe_server::library::storage::{StorageEntry, StorageEntryKind, StoragePath};

#[test]
fn detect_prefers_content_type_over_wrong_magic() {
    let png_header = b"\x89PNG\r\n\x1a\n";
    let mime = detect_cover_mime_type(Some("image/jpeg"), png_header.as_slice());
    assert!(matches!(mime, CoverMime::Jpeg));
}

#[test]
fn detect_png_from_magic_when_no_header() {
    let mut b = b"\x89PNG\r\n\x1a\n".to_vec();
    b.extend_from_slice(&[0u8; 20]);
    let mime = detect_cover_mime_type(None, &b);
    assert!(matches!(mime, CoverMime::Png));
    assert_eq!(cover_file_extension(&mime), "png");
}

#[test]
fn detect_bmp_from_magic() {
    let mut b = b"BM".to_vec();
    b.extend_from_slice(&[0u8; 20]);
    let mime = detect_cover_mime_type(None, &b);
    assert!(matches!(mime, CoverMime::Bmp));
    assert!(is_allowed_upload_cover_mime(&mime));
}

#[test]
fn gif_detected_but_not_allowed_for_upload() {
    let b = b"GIF89a";
    let mime = detect_cover_mime_type(None, b);
    assert!(matches!(mime, CoverMime::Gif));
    assert!(!is_allowed_upload_cover_mime(&mime));
}

#[test]
fn detect_webp_from_magic() {
    let mut b = b"RIFF".to_vec();
    b.extend_from_slice(&[0, 0, 0, 0]);
    b.extend_from_slice(b"WEBP");
    b.extend_from_slice(&[0u8; 8]);
    let mime = detect_cover_mime_type(None, &b);
    assert!(matches!(mime, CoverMime::Unknown(_)));
    assert_eq!(cover_file_extension(&mime), "webp");
}

#[test]
fn header_types_go_through_the_tag_library() {
    assert_eq!(primary_mime_from_header(" Image/PNG ; charset=x"), "image/png");
    assert!(matches!(
        detect_cover_mime_type(Some("IMAGE/TIFF"), b""),
        CoverMime::Tiff
    ));
    assert!(matches!(
        detect_cover_mime_type(Some("image/webp"), b"\xff\xd8\xff"),
        CoverMime::Unknown(ref s) if s == "image/webp"
    ));
    assert!(matches!(
        detect_cover_mime_type(Some("text/plain"), b"\xff\xd8\xff"),
        CoverMime::Jpeg
    ));
    assert!(matches!(detect_cover_mime_type(None, b"??"), CoverMime::Jpeg));
}

#[test]
fn upload_header_check() {
    assert!(validate_upload_content_type_header(None).is_ok());
    assert!(validate_upload_content_type_header(Some("  ")).is_ok());
    assert!(validate_upload_content_type_header(Some("image/jpg")).is_ok());
    assert_eq!(
        validate_upload_content_type_header(Some("image/gif"))
            .unwrap_err()
            .message(),
        "unsupported cover image type"
    );
}

#[test]
fn cover_names_and_types() {
    assert!(is_album_cover_filename("Cover.JPG"));
    assert!(is_album_cover_filename("folder.jpg"));
    assert!(!is_album_cover_filename("cover.txt"));
    assert_eq!(cover_candidate_ext("Album.JPG"), Some("JPG".to_string()));
    assert_eq!(cover_candidate_ext("notes.txt"), None);
    assert!(is_supported_storage_cover_ext("a.webp"));
    assert!(!is_supported_storage_cover_ext("a.gif"));
    assert_eq!(image_content_type("x/cover.JPEG"), "image/jpeg");
    assert_eq!(image_content_type("x/cover"), "application/octet-stream");
    assert!(is_previous_cover_file("COVER.png"));
    assert!(!is_previous_cover_file("cover."));
    assert_eq!(cover_file_extension(&CoverMime::Tiff), "tif");
}

#[test]
fn name_tokens_skip_years_and_punctuation() {
    assert_eq!(
        normalized_cover_name_tokens("Scorpions - Lonesome Crow - 1972.png"),
        vec!["scorpions", "lonesome", "crow"]
    );
    assert!(contains_album_title_tokens(
        "Scorpions - Lonesome Crow - 1972.png",
        "Lonesome Crow"
    ));
    assert!(!contains_album_title_tokens("booklet.jpg", "Album"));
    assert!(!contains_album_title_tokens("1999.jpg", "1999"));
}

#[test]
fn resolve_rejects_double_dot() {
    assert!(resolve_library_relative_file("a/../b.jpg").is_err());
}

#[test]
fn resolve_checks_relative_paths() {
    assert_eq!(resolve_library_relative_file(" sub/cover.jpg ").unwrap(), "sub/cover.jpg");
    assert_eq!(
        resolve_library_relative_file("/sub/cover.jpg").unwrap_err().message(),
        "invalid library path"
    );
    assert_eq!(
        resolve_library_relative_file("  ").unwrap_err().message(),
        "cover file not found"
    );
    assert!(contained_cover_file("/lib", Some("/lib/sub/cover.jpg")).is_ok());
    assert_eq!(contained_cover_file("/lib", Some("/other/cover.jpg")).unwrap_err().message(), "invalid library path");
    assert_eq!(contained_cover_file("/lib", None).unwrap_err().message(), "cover file not found");
    assert_eq!(
        resolve_library_relative_file("a//b").unwrap_err().message(),
        "invalid library path"
    );
    assert!(resolve_library_relative_file("a\\b").is_err());
}

#[test]
fn catalog_ids_are_unique_and_ordered() {
    assert_eq!(qobuz_catalog_ids_for_cover(Some(5), Some(5), 7), vec![5, 7]);
    assert_eq!(qobuz_catalog_ids_for_cover(None, Some(7), 7), vec![7]);
    assert_eq!(qobuz_catalog_ids_for_cover(Some(1), None, 2), vec![1, 2]);
}

#[test]
fn cover_url_prefers_large() {
    let img = Image {
        large: Some("L".into()),
        thumbnail: Some("T".into()),
        small: None,
    };
    assert_eq!(cover_url(&img), Some("L"));
    let img = Image {
        large: None,
        thumbnail: None,
        small: Some("S".into()),
    };
    assert_eq!(cover_url(&img), Some("S"));
    let img = Image {
        large: Some(String::new()),
        thumbnail: Some("T".into()),
        small: None,
    };
    assert_eq!(cover_url(&img), None);
}

fn entry(album: &str, name: &str, kind: StorageEntryKind) -> StorageEntry {
    StorageEntry {
        name: name.to_string(),
        path: StoragePath::parse(&format!("{album}/{name}")).unwrap(),
        kind,
        size: None,
        mtime: None,
    }
}

#[test]
fn storage_cover_choice_follows_preferences() {
    let album = StoragePath::parse("Artist/Album").unwrap();
    let es = vec![
        entry("Artist/Album", "Album.png", StorageEntryKind::File),
        entry("Artist/Album", "COVER.PNG", StorageEntryKind::File),
        entry("Artist/Album", "cover.jpg", StorageEntryKind::Directory),
    ];
    assert_eq!(
        choose_storage_cover(&album, &es),
        Some("Artist/Album/COVER.PNG".to_string())
    );
    let es = vec![
        entry("Artist/Album", "zz.jpg", StorageEntryKind::File),
        entry("Artist/Album", "The Album.jpg", StorageEntryKind::File),
    ];
    assert_eq!(
        choose_storage_cover(&album, &es),
        Some("Artist/Album/The Album.jpg".to_string())
    );
    let es = vec![
        entry("Artist/Album", "b.jpg", StorageEntryKind::File),
        entry("Artist/Album", "a.bmp", StorageEntryKind::File),
        entry("Artist/Album", "a.gif", StorageEntryKind::File),
    ];
    assert_eq!(
        choose_storage_cover(&album, &es),
        Some("Artist/Album/a.bmp".to_string())
    );
    assert_eq!(choose_storage_cover(&StoragePath::root(), &es), None);
    assert_eq!(choose_storage_cover(&album, &[]), None);
}

#[test]
fn cover_upload_checks() {
    let png = b"\x89PNG\r\n\x1a\n0000".to_vec();
    let (album, mime) = check_cover_upload("A/B", &png, None).unwrap();
    assert_eq!(album.as_str(), "A/B");
    assert!(matches!(mime, CoverMime::Png));
    assert_eq!(
        check_cover_upload("A/B", &[], None).unwrap_err().message(),
        "cover image is empty"
    );
    let big = vec![0xffu8; 20 * 1024 * 1024 + 1];
    let e = check_cover_upload("A/B", &big, None).unwrap_err();
    assert_eq!(e.status(), 413);
    assert_eq!(
        check_cover_upload("A/B", b"GIF89a", None).unwrap_err().message(),
        "unsupported cover image type"
    );
    assert_eq!(
        check_cover_upload("", &png, None).unwrap_err().message(),
        "invalid album path"
    );
}
