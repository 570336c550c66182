use euterpe_server::library::local_covers::{
    album_rel_for_discovery, choose_local_cover, cover_path_step, CoverPathStep, LocalCoverChoice,
};

fn names(v: &[&str]) -> Vec<String> {
    v.iter().map(|s| s.to_string()).collect()
}

#[test]
fn discovery_dir_is_normalized() {
    assert_eq!(album_rel_for_discovery(" Artist/Album/ ").as_deref(), Some("Artist/Album"));
    assert_eq!(album_rel_for_discovery("Artist\\Album").as_deref(), Some("Artist/Album"));
    assert_eq!(album_rel_for_discovery("  / "), None);
}

#[test]
fn local_cover_found_by_name() {
    match choose_local_cover("Artist/Album", &names(&["01 - Song.flac", "cover.jpg"])) {
        LocalCoverChoice::Existing(p) => assert_eq!(p, "Artist/Album/cover.jpg"),
        _ => panic!("expected existing cover"),
    }
    match choose_local_cover("A/B", &names(&["Folder.JPG"])) {
        LocalCoverChoice::Existing(p) => assert_eq!(p, "A/B/Folder.JPG"),
        _ => panic!("expected existing cover"),
    }
}

#[test]
fn local_cover_gif_is_taken_by_name_order() {
    match choose_local_cover("A/B", &names(&["cover.GIF", "Cover.gif"])) {
        LocalCoverChoice::Existing(p) => assert_eq!(p, "A/B/Cover.gif"),
        _ => panic!("expected existing cover"),
    }
}

#[test]
fn local_album_title_image_is_renamed() {
    match choose_local_cover("Artist/Album", &names(&["Album.jpg"])) {
        LocalCoverChoice::Rename { from, to, rel } => {
            assert_eq!(from, "Album.jpg");
            assert_eq!(to, "cover.jpg");
            assert_eq!(rel, "Artist/Album/cover.jpg");
        }
        _ => panic!("expected rename"),
    }
    match choose_local_cover(
        "Scorpions/Lonesome Crow",
        &names(&["Scorpions - Lonesome Crow - 1972.png"]),
    ) {
        LocalCoverChoice::Rename { to, rel, .. } => {
            assert_eq!(to, "cover.png");
            assert_eq!(rel, "Scorpions/Lonesome Crow/cover.png");
        }
        _ => panic!("expected rename"),
    }
}

#[test]
fn local_unrelated_image_is_left_alone() {
    assert!(matches!(
        choose_local_cover("Artist/Album", &names(&["booklet.jpg"])),
        LocalCoverChoice::Missing
    ));
}

#[test]
fn local_existing_cover_beats_title_image() {
    match choose_local_cover("Artist/Album", &names(&["Album.png", "cover.jpg"])) {
        LocalCoverChoice::Existing(p) => assert_eq!(p, "Artist/Album/cover.jpg"),
        _ => panic!("expected existing cover"),
    }
}

#[test]
fn cover_path_step_keeps_resolvable_cover() {
    assert!(matches!(cover_path_step(Some(" A/cover.jpg "), true, Some("A")), CoverPathStep::Keep(k) if k == "A/cover.jpg"));
    assert!(matches!(cover_path_step(Some("A/cover.jpg"), false, Some(" A ")), CoverPathStep::Discover(d) if d == "A"));
    assert!(matches!(cover_path_step(Some("  "), true, None), CoverPathStep::Stored(Some(s)) if s == "  "));
    assert!(matches!(cover_path_step(None, false, Some(" ")), CoverPathStep::Stored(None)));
}
