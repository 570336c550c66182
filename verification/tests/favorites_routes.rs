use euterpe_server::api::keyset::SortOrder;
use euterpe_server::api::settings::{StorageLocationView, StorageWatchStateView, StorageWatchStatusView};
use euterpe_server::db::favorites::FavoritesSort;
use euterpe_server::routes::favorites::{
    check_favorites_mutation, default_favorites_limit, default_favorites_sort,
    plan_favorites_listing, public_server_storage_view, FavoritesQuery,
};

fn query(entity_type: &str, limit: u32, sort: &str, order: Option<&str>) -> FavoritesQuery {
    FavoritesQuery {
        entity_type: entity_type.into(),
        limit,
        sort: sort.into(),
        order: order.map(Into::into),
        cursor: None,
        q: None,
        in_library: None,
    }
}

fn watch() -> StorageWatchStatusView {
    StorageWatchStatusView { state: StorageWatchStateView::Connected, degraded_reason: None }
}

#[test]
fn favorites_defaults() {
    assert_eq!(default_favorites_limit(), 50);
    assert_eq!(default_favorites_sort(), "title");
}

#[test]
fn favorites_plan_checks_query() {
    let p = plan_favorites_listing(&query("album", 0, "title", None)).unwrap();
    assert_eq!(p.sort, FavoritesSort::Title);
    assert_eq!(p.order, SortOrder::Asc);
    assert_eq!(p.limit, 50);
    let p = plan_favorites_listing(&query("album", 20, "in_library", Some("desc"))).unwrap();
    assert_eq!(p.sort, FavoritesSort::InLibrary);
    assert_eq!(p.order, SortOrder::Desc);
    assert_eq!(p.limit, 20);
    let e = plan_favorites_listing(&query("track", 20, "title", None)).unwrap_err();
    assert_eq!(e.message(), "only type=album is supported");
    let e = plan_favorites_listing(&query("album", 501, "title", None)).unwrap_err();
    assert_eq!(e.message(), "limit must be 1..=500");
    let e = plan_favorites_listing(&query("album", 5, "year", None)).unwrap_err();
    assert_eq!(e.message(), "sort must be title, artist, or in_library");
    let e = plan_favorites_listing(&query("album", 5, "artist", Some("up"))).unwrap_err();
    assert_eq!(e.message(), "order must be asc or desc");
}

#[test]
fn favorites_mutation_needs_ids() {
    assert_eq!(check_favorites_mutation(&vec![]).unwrap_err().message(), "album_ids must not be empty");
    assert!(check_favorites_mutation(&vec![1, 2]).is_ok());
}

#[test]
fn public_storage_view_hides_smb_account() {
    let smb = StorageLocationView::Smb {
        host: "nas".into(),
        port: 445,
        share: "music".into(),
        path: "lib".into(),
        watch_status: watch(),
        username: Some("WORKGROUP\\bob".into()),
        workgroup: Some("WORKGROUP".into()),
        password_configured: true,
    };
    match public_server_storage_view(smb) {
        StorageLocationView::Smb { host, username, workgroup, password_configured, .. } => {
            assert_eq!(host, "nas");
            assert!(username.is_none());
            assert!(workgroup.is_none());
            assert!(!password_configured);
        }
        _ => panic!("expected smb"),
    }
    let local = StorageLocationView::Local { path: "/music".into(), watch_status: watch() };
    assert!(matches!(public_server_storage_view(local), StorageLocationView::Local { path, .. } if path == "/music"));
}
