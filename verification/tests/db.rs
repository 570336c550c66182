use euterpe_server::api::keyset::{SortKeyValue, SortOrder};
use euterpe_server::db::albums::{album_search_clause, albums_fingerprint, AlbumListRow, AlbumsSort};
use euterpe_server::db::sqlite_file_path;
use euterpe_server::db::tracks::{
    absent_in_scope_delete, normalized_scope, path_extension_lower, path_prefix_bounds,
};

#[test]
fn sqlite_file_path_parses_docker_style_url() {
    let p = sqlite_file_path("sqlite:/data/library.db?mode=rwc").unwrap();
    assert_eq!(p, "/data/library.db");
}

#[test]
fn sqlite_file_path_skips_memory_and_other_urls() {
    assert_eq!(sqlite_file_path("sqlite::memory:"), None);
    assert_eq!(sqlite_file_path("postgres://x"), None);
    assert_eq!(sqlite_file_path("sqlite:?mode=rwc"), None);
    assert_eq!(sqlite_file_path("sqlite: data.db "), Some("data.db".to_string()));
}

#[test]
fn prefix_bounds_select_the_directory() {
    let (lower, upper) = path_prefix_bounds("Artist/Album/");
    assert_eq!(lower, "Artist/Album/");
    assert_eq!(upper, "Artist/Album0");
    for (p, inside) in [
        ("Artist/Album/01.flac", true),
        ("Artist/AlbumX/01.flac", false),
        ("Artist/Album", false),
        ("Artist/Album.flac", false),
    ] {
        assert_eq!(p >= lower.as_str() && p < upper.as_str(), inside, "{p}");
    }
}

#[test]
fn scope_is_trimmed_of_slashes() {
    assert_eq!(normalized_scope(Some(" /A/B/ ")), "A/B");
    assert_eq!(normalized_scope(None), "");
}

#[test]
fn extension_is_lowercased() {
    assert_eq!(path_extension_lower("a/b/Track.FLAC"), Some("flac".to_string()));
    assert_eq!(path_extension_lower("a/b/noext"), None);
}

#[test]
fn album_sort_sql_and_keys() {
    assert_eq!(AlbumsSort::parse("year").unwrap(), AlbumsSort::Year);
    assert_eq!(
        AlbumsSort::parse("x").unwrap_err().message(),
        "sort must be title, artist, or year"
    );
    assert_eq!(
        AlbumsSort::Artist.order_sql(SortOrder::Desc),
        "COALESCE(ar.name, '') COLLATE NOCASE DESC, a.id ASC"
    );
    let row = AlbumListRow {
        id: 1,
        title: "T".into(),
        artist_name: "A".into(),
        year: None,
        path: None,
        cover_path: None,
        track_count: 0,
    };
    assert_eq!(AlbumsSort::Year.primary_key(&row), SortKeyValue::Int(-1));
    assert_eq!(
        album_search_clause(Some("  rock ")).unwrap().1,
        "%rock%"
    );
    assert!(album_search_clause(Some("   ")).is_none());
}

#[test]
fn albums_fingerprint_is_search_object() {
    assert_eq!(albums_fingerprint(None), "{\"q\":null}");
    assert_eq!(albums_fingerprint(Some("Bach \"B\"")), "{\"q\":\"Bach \\\"B\\\"\"}");
}

#[test]
fn absent_delete_covers_scope_and_subtree() {
    let (sql, binds) = absent_in_scope_delete(Some(" /Artist/Album/ "), false);
    assert_eq!(
        sql,
        "DELETE FROM tracks WHERE (path = ? OR (path >= ? AND path < ?)) AND NOT EXISTS (SELECT 1 FROM euterpe_scan_keep_paths keep WHERE keep.path = tracks.path)"
    );
    assert_eq!(binds, vec!["Artist/Album".to_string(), "Artist/Album/".to_string(), "Artist/Album0".to_string()]);
    let (sql, binds) = absent_in_scope_delete(None, true);
    assert_eq!(
        sql,
        "DELETE FROM tracks WHERE 1=1 AND NOT EXISTS (SELECT 1 FROM scan_keep_paths keep WHERE keep.scan_id = ? AND keep.path = tracks.path)"
    );
    assert!(binds.is_empty());
}
