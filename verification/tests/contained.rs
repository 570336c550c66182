use euterpe_server::library::contained::{
    check_contained, check_raced_entry, contained_walk_step, walk_components, ComponentState,
    WalkStep,
};

#[test]
fn walk_visits_non_empty_components() {
    assert_eq!(walk_components("Artist//Album/"), vec!["Artist".to_string(), "Album".to_string()]);
    assert!(walk_components("").is_empty());
}

#[test]
fn walk_follows_symlink_only_inside_root() {
    let inside = ComponentState::Symlink { canonical: "/lib/real".into(), canonical_is_dir: true };
    assert!(matches!(contained_walk_step("/lib", "/lib/link", inside), WalkStep::Continue(c) if c == "/lib/real"));
    let outside = ComponentState::Symlink { canonical: "/library2/x".into(), canonical_is_dir: true };
    match contained_walk_step("/lib", "/lib/link", outside) {
        WalkStep::Refuse(e) => assert_eq!(e.message(), "library path outside root"),
        _ => panic!("expected refusal"),
    }
    let file = ComponentState::Symlink { canonical: "/lib/f".into(), canonical_is_dir: false };
    match contained_walk_step("/lib", "/lib/link", file) {
        WalkStep::Refuse(e) => assert_eq!(e.message(), "storage path is not a directory"),
        _ => panic!("expected refusal"),
    }
}

#[test]
fn walk_enters_directories_and_creates_missing() {
    assert!(matches!(contained_walk_step("/lib", "/lib/a", ComponentState::Directory), WalkStep::Continue(c) if c == "/lib/a"));
    assert!(matches!(contained_walk_step("/lib", "/lib/a", ComponentState::Missing), WalkStep::Create));
    assert!(matches!(contained_walk_step("/lib", "/lib/a", ComponentState::NotDirectory), WalkStep::Refuse(_)));
    assert!(check_raced_entry(true).is_ok());
    assert!(check_raced_entry(false).is_err());
}

#[test]
fn final_path_must_stay_in_root() {
    assert!(check_contained("/lib", "/lib/a/b").is_ok());
    assert!(check_contained("/lib", "/lib").is_ok());
    assert_eq!(check_contained("/lib", "/libx/a").unwrap_err().message(), "library path outside root");
}
