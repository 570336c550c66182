use euterpe_server::config::{
    default_public_base_url, env_flag, non_empty_setting, oauth_callback_url, public_base_url,
    torrent_max_active, AppConfig, AppEnv, LibraryScanConfig, LibraryScanEnv,
};
use euterpe_server::error::ApiError;

fn env<'a>(total: Option<&'a str>, en: Option<&'a str>, pr: Option<&'a str>) -> LibraryScanEnv<'a> {
    LibraryScanEnv {
        worker_total: total,
        enum_workers: en,
        process_workers: pr,
        seed_depth: None,
        index_queue: None,
        path_queue: None,
    }
}

#[test]
fn library_scan_rejects_enum_plus_process_over_total() {
    let err = LibraryScanConfig::from_values(&env(Some("4"), Some("3"), Some("3")))
        .expect_err("expected config error");
    assert!(matches!(err, ApiError::Config(_)));
    match err {
        ApiError::Config(m) => assert_eq!(
            m,
            "EUTERPE_LIBRARY_SCAN_ENUM_WORKERS (3) + EUTERPE_LIBRARY_SCAN_PROCESS_WORKERS (3) must be <= EUTERPE_LIBRARY_SCAN_WORKER_TOTAL (4)"
        ),
        _ => unreachable!(),
    }
}

#[test]
fn library_scan_defaults_and_clamps() {
    let c = LibraryScanConfig::from_values(&env(None, None, None)).unwrap();
    assert_eq!((c.worker_total, c.enum_workers, c.process_workers), (10, 5, 5));
    assert_eq!((c.seed_depth, c.index_queue_capacity, c.path_queue_capacity), (1, 512, 2048));
    let c = LibraryScanConfig::from_values(&env(Some("99"), Some("x"), Some("1"))).unwrap();
    assert_eq!(c.worker_total, 32);
    assert_eq!(c.enum_workers, 5);
    let e = LibraryScanConfig::from_values(&env(Some("1"), Some("3"), Some("1"))).unwrap_err();
    match e {
        ApiError::Config(m) => assert_eq!(
            m,
            "enum workers (3) and process workers (1) must each be <= EUTERPE_LIBRARY_SCAN_WORKER_TOTAL (2)"
        ),
        _ => panic!(),
    }
    assert!(LibraryScanConfig::from_values(&env(None, Some("0"), None)).is_err());
    let d = LibraryScanConfig::default();
    assert_eq!(d.worker_total, 10);
}

#[test]
fn env_helpers() {
    assert!(env_flag(Some("yes"), false));
    assert!(!env_flag(Some("on"), true));
    assert!(env_flag(None, true));
    assert_eq!(torrent_max_active(Some("0")), 1);
    assert_eq!(torrent_max_active(None), 2);
    assert_eq!(non_empty_setting(Some("")), None);
    assert_eq!(default_public_base_url("::1", 8080), "http://[::1]:8080");
    assert_eq!(default_public_base_url("127.0.0.1", 80), "http://127.0.0.1:80");
    assert_eq!(public_base_url(Some("https://x/"), "http://y"), "https://x");
    assert_eq!(public_base_url(Some(""), "http://y"), "http://y");
    assert_eq!(
        oauth_callback_url("https://x"),
        "https://x/api/v1/qobuz/oauth/callback"
    );
}

fn app_env<'a>() -> AppEnv<'a> {
    AppEnv {
        database_url: None,
        home: Some("/home/u"),
        admin_password: None,
        master_key: None,
        public_base_url: None,
        oauth_state_ttl_secs: None,
        library_path: None,
        torrent_incoming_dir: Some(""),
        torrent_max_active: Some("0"),
        torrent_upnp: None,
        download_concurrency: Some("x"),
        debug: Some("yes"),
        static_dir: None,
        qobuz_api_base: Some(""),
        qobuz_play_base: Some("http://play"),
        scan: env(None, None, None),
    }
}

#[test]
fn app_config_defaults() {
    let c = AppConfig::from_values(Ok(("127.0.0.1".into(), 8080)), &app_env()).unwrap();
    assert_eq!(c.database_url, "sqlite:/home/u/.local/share/euterpe/library.db?mode=rwc");
    assert_eq!(c.public_base_url, "http://127.0.0.1:8080");
    assert_eq!(c.oauth_state_ttl_secs, 600);
    assert_eq!(c.library_path, "/music");
    assert_eq!(c.static_dir, "frontend/dist");
    assert!(c.torrent_incoming_dir.is_none());
    assert_eq!(c.torrent_max_active, 1);
    assert!(c.torrent_enable_upnp);
    assert_eq!(c.download_concurrency, 3);
    assert!(c.debug);
    assert!(c.library_scan.debug);
    assert!(c.qobuz_api_base.is_none());
    assert_eq!(c.qobuz_play_base.as_deref(), Some("http://play"));
    assert!(c.master_key.is_none());
    assert_eq!(c.oauth_callback_url(), "http://127.0.0.1:8080/api/v1/qobuz/oauth/callback");
}

#[test]
fn app_config_uses_given_values() {
    let mut e = app_env();
    e.database_url = Some("sqlite::memory:");
    e.public_base_url = Some("https://music.example/");
    e.oauth_state_ttl_secs = Some("60");
    let c = AppConfig::from_values(Ok(("::1".into(), 9000)), &e).unwrap();
    assert_eq!(c.database_url, "sqlite::memory:");
    assert_eq!(c.public_base_url, "https://music.example");
    assert_eq!(c.oauth_state_ttl_secs, 60);
    e.public_base_url = None;
    let c = AppConfig::from_values(Ok(("::1".into(), 9000)), &e).unwrap();
    assert_eq!(c.public_base_url, "http://[::1]:9000");
}

#[test]
fn app_config_errors_in_order() {
    let mut e = app_env();
    e.master_key = Some("not-a-key");
    match AppConfig::from_values(Err("invalid socket address syntax".into()), &e) {
        Err(ApiError::Config(m)) => assert_eq!(m, "invalid EUTERPE_BIND: invalid socket address syntax"),
        other => panic!("unexpected {other:?}"),
    }
    assert!(matches!(
        AppConfig::from_values(Ok(("127.0.0.1".into(), 1)), &e),
        Err(ApiError::Config(_))
    ));
    e.master_key = Some("");
    e.scan = env(Some("4"), Some("3"), Some("3"));
    assert!(matches!(
        AppConfig::from_values(Ok(("127.0.0.1".into(), 1)), &e),
        Err(ApiError::Config(_))
    ));
}
