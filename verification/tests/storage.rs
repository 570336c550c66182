use euterpe_server::library::storage::{
    ensure_local_child, smb_entry_path_relative_to_library_root, smb_location_path, LocalStorage,
    StoragePath,
};

#[test]
fn storage_path_normalizes_separators() {
    let path = StoragePath::parse(r"Artist\Album//01.flac").unwrap();
    assert_eq!(path.as_str(), "Artist/Album/01.flac");
    assert_eq!(path.parent().unwrap().as_str(), "Artist/Album");
    assert_eq!(path.file_name().unwrap(), "01.flac");
}

#[test]
fn storage_path_rejects_escape_paths() {
    assert!(StoragePath::parse("../outside.flac").is_err());
    assert!(StoragePath::parse("/absolute.flac").is_err());
    assert!(StoragePath::parse(r"\\nas\share\file.flac").is_err());
    assert!(StoragePath::parse("C:/music/file.flac").is_err());
}

#[test]
fn storage_path_error_messages() {
    match StoragePath::parse("a/../b") {
        Err(e) => assert_eq!(e.message(), "library path must not escape root"),
        Ok(_) => panic!("expected error"),
    }
    match StoragePath::parse("/a") {
        Err(e) => assert_eq!(e.message(), "invalid library-relative path"),
        Ok(_) => panic!("expected error"),
    }
}

#[test]
fn storage_path_drops_dot_and_trims_components() {
    let p = StoragePath::parse(" ./A / . /B ").unwrap();
    assert_eq!(p.as_str(), "A/B");
    assert!(StoragePath::parse("").unwrap().is_root());
    assert!(StoragePath::root().is_root());
    assert!(StoragePath::root().file_name().is_none());
    assert!(StoragePath::parse("single").unwrap().parent().is_none());
}

#[test]
fn storage_path_join() {
    let base = StoragePath::parse("Artist/Album").unwrap();
    assert_eq!(base.join("01.flac").unwrap().as_str(), "Artist/Album/01.flac");
    assert_eq!(base.join("").unwrap().as_str(), "Artist/Album");
    assert_eq!(StoragePath::root().join("x/y").unwrap().as_str(), "x/y");
    assert!(base.join("../x").is_err());
}

#[test]
fn local_paths_below_root() {
    let storage = LocalStorage::new("/srv/music");
    let p = StoragePath::parse("A/B/c.flac").unwrap();
    assert_eq!(storage.abs(&p), "/srv/music/A/B/c.flac");
    assert_eq!(p.to_local_path("/lib/"), "/lib/A/B/c.flac");
    assert_eq!(StoragePath::root().to_local_path("/lib"), "/lib");
}

#[test]
fn smb_entry_path_strips_library_root_prefix() {
    assert_eq!(
        smb_entry_path_relative_to_library_root("Musik/Flac", "Musik/Flac/Aarni"),
        "Aarni"
    );
    assert_eq!(
        smb_entry_path_relative_to_library_root("Musik/Flac", "Musik/Flac"),
        ""
    );
    assert_eq!(
        smb_entry_path_relative_to_library_root("", "Album/track.flac"),
        "Album/track.flac"
    );
}

#[test]
fn smb_entry_path_keeps_sibling_with_root_as_text_prefix() {
    assert_eq!(
        smb_entry_path_relative_to_library_root("Musik/Flac", "Musik/FlacX/a"),
        "Musik/FlacX/a"
    );
}

#[test]
fn local_child_inside_root_is_accepted() {
    assert!(ensure_local_child("/music", "/music/Artist/Album/01.flac").is_ok());
    assert!(ensure_local_child("/music", "/music").is_ok());
}

#[test]
fn local_child_outside_or_climbing_is_refused() {
    let e = ensure_local_child("/music", "/musicx/a.flac").unwrap_err();
    assert_eq!(e.message(), "library path outside root");
    let e = ensure_local_child("/music", "/music/../etc/passwd").unwrap_err();
    assert_eq!(e.message(), "invalid library path");
    assert!(ensure_local_child("/music", "music/a.flac").is_err());
}

#[test]
fn smb_location_joins_root_and_path_and_maps_back() {
    assert_eq!(smb_location_path("", ""), "");
    assert_eq!(smb_location_path("", "A/B"), "A/B");
    assert_eq!(smb_location_path("music", ""), "music");
    assert_eq!(smb_location_path("music", "A/B"), "music/A/B");
    assert_eq!(
        smb_entry_path_relative_to_library_root("music", &smb_location_path("music", "A/B")),
        "A/B"
    );
}

#[test]
fn storage_parent_joined_with_file_name_is_the_path() {
    let p = StoragePath::parse(" Artist / Album /./01 - Song.flac").unwrap();
    let q = p.parent().unwrap();
    assert_eq!(q.as_str(), "Artist/Album");
    let n = p.file_name().unwrap();
    assert_eq!(q.join(&n).unwrap(), p);
    let single = StoragePath::parse("01.flac").unwrap();
    assert!(single.parent().is_none());
    assert!(StoragePath::root().parent().is_none());
}

#[test]
fn storage_join_worked_examples() {
    let a = StoragePath::parse("Artist/Album").unwrap();
    assert_eq!(a.join("cover.png").unwrap(), StoragePath::parse("Artist/Album/cover.png").unwrap());
    assert!(StoragePath::parse("Artist").unwrap().join("../x").is_err());
    assert_eq!(StoragePath::root().join("x/y").unwrap(), StoragePath::parse("x/y").unwrap());
    assert_eq!(a.join(".").unwrap(), a);
}
