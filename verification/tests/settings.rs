use euterpe_server::api::settings::{
    DownloadsSettingsPatch, LibraryScanSettingsPatch, QobuzScheduledSyncSettingsPatch,
    SmbSharesRequest, StorageLocationPatch, StorageLocationView, StorageSettingsView,
    StringPatchField,
};
use euterpe_server::routes::settings_ext::{
    apply_downloads_patch, apply_library_scan_patch, apply_qobuz_sync_patch, browse_target,
    current_smb_defaults_for_patch, hosts_match, merge_smb_shares_credentials,
    normalize_browse_path, storage_kind_migration, storage_location_patch_to_location,
};
use euterpe_server::services::app_settings::{
    DownloadsSettings, LibraryScanSettings, QobuzScheduledSyncSettings, StorageLocation,
    StoragePreset, StorageSettings,
};
use euterpe_server::services::storage_watch::{StorageWatchState, StorageWatchStatus};
use euterpe_server::smb::format_smb_username;

fn smb(host: &str, share: &str, password: Option<&str>) -> StorageLocation {
    StorageLocation::Smb {
        host: host.into(),
        port: 445,
        share: share.into(),
        path: String::new(),
        username: Some("user".into()),
        password_encrypted: password.map(Into::into),
        workgroup: Some("WORKGROUP".into()),
    }
}

#[test]
fn uses_stored_password_when_request_omits_it() {
    let body = SmbSharesRequest {
        host: "192.168.0.124".into(),
        port: 445,
        username: Some("dietpi".into()),
        password: None,
        workgroup: None,
    };
    let stored = StorageLocation::Smb {
        host: "192.168.0.124".into(),
        port: 445,
        share: "music".into(),
        path: String::new(),
        username: Some("dietpi".into()),
        password_encrypted: Some("enc".into()),
        workgroup: None,
    };
    let creds =
        merge_smb_shares_credentials(&body, Some(&stored), |_| Ok("secret".into())).unwrap();
    assert_eq!(creds.password, "secret");
    assert!(creds.username.contains("dietpi"));
}

#[test]
fn request_password_overrides_stored() {
    let body = SmbSharesRequest {
        host: "192.168.0.124".into(),
        port: 445,
        username: None,
        password: Some("inline".into()),
        workgroup: None,
    };
    let stored = StorageLocation::Smb {
        host: "192.168.0.124".into(),
        port: 445,
        share: "music".into(),
        path: String::new(),
        username: None,
        password_encrypted: Some("enc".into()),
        workgroup: None,
    };
    let creds =
        merge_smb_shares_credentials(&body, Some(&stored), |_| Ok("stored".into())).unwrap();
    assert_eq!(creds.password, "inline");
}

#[test]
fn storage_patch_reuses_password_only_for_same_endpoint() {
    let current = StorageSettings {
        library: Some(StorageLocation::Smb {
            host: "NAS.local".into(),
            port: 445,
            share: "music".into(),
            path: String::new(),
            username: Some("user".into()),
            password_encrypted: Some("enc".into()),
            workgroup: Some("WORKGROUP".into()),
        }),
        presets: Vec::new(),
    };

    let same = current_smb_defaults_for_patch(&current, "nas.LOCAL", 445, "MUSIC");
    assert_eq!(same.0, Some("enc".into()));
    assert_eq!(same.1, Some("user".into()));
    assert_eq!(same.2, Some("WORKGROUP".into()));

    let changed_share = current_smb_defaults_for_patch(&current, "NAS.local", 445, "archive");
    assert_eq!(changed_share.0, None);
    assert_eq!(changed_share.1, Some("user".into()));
    assert_eq!(changed_share.2, Some("WORKGROUP".into()));

    let changed_port = current_smb_defaults_for_patch(&current, "NAS.local", 1445, "music");
    assert_eq!(changed_port.0, None);
}

#[test]
fn format_smb_username_applies_workgroup_for_plain_user() {
    assert_eq!(format_smb_username(Some("WORKGROUP"), "roon"), r"WORKGROUP\roon");
}

#[test]
fn format_smb_username_leaves_domain_qualified_user_unchanged() {
    assert_eq!(format_smb_username(Some("WORKGROUP"), r"NAS\roon"), r"NAS\roon");
    assert_eq!(
        format_smb_username(Some("WORKGROUP"), "roon@nas.local"),
        "roon@nas.local"
    );
}

#[test]
fn format_smb_username_without_workgroup_is_unchanged() {
    assert_eq!(format_smb_username(None, "roon"), "roon");
    assert_eq!(format_smb_username(Some(""), "roon"), "roon");
    assert_eq!(format_smb_username(Some("   "), "roon"), "roon");
}

#[test]
fn format_smb_username_trims_inputs() {
    assert_eq!(
        format_smb_username(Some("  WORKGROUP  "), "  roon  "),
        r"WORKGROUP\roon"
    );
}

#[test]
fn decrypt_failure_is_reported() {
    let body = SmbSharesRequest {
        host: "nas".into(),
        port: 445,
        username: None,
        password: Some(String::new()),
        workgroup: None,
    };
    let stored = smb("NAS", "music", Some("enc"));
    let e = merge_smb_shares_credentials(&body, Some(&stored), |_| {
        Err(euterpe_server::error::ApiError::bad_request("MASTER_KEY missing"))
    })
    .unwrap_err();
    assert_eq!(e.code(), "MASTER_KEY_REQUIRED");
    let creds =
        merge_smb_shares_credentials(&body, Some(&smb("other", "m", Some("enc"))), |_| {
            panic!("not called")
        })
        .unwrap();
    assert_eq!(creds.password, "");
    assert_eq!(creds.username, "");
    let creds = merge_smb_shares_credentials(&body, Some(&stored), |_| Ok("pw".into())).unwrap();
    assert_eq!(creds.username, r"WORKGROUP\user");
}

#[test]
fn migration_hint_only_on_backend_change() {
    let local = StorageSettings {
        library: Some(StorageLocation::Local {
            path: "/music".into(),
        }),
        presets: vec![],
    };
    let remote = StorageSettings {
        library: Some(smb("nas", "music", None)),
        presets: vec![],
    };
    let (hint, full) = storage_kind_migration(&local, &remote).unwrap();
    assert!(hint.contains("from local disk to SMB"));
    assert!(full);
    assert!(storage_kind_migration(&remote, &local)
        .unwrap()
        .0
        .contains("from SMB to local disk"));
    assert!(storage_kind_migration(&local, &local).is_none());
    assert!(hosts_match("NAS", "nas"));
}

#[test]
fn browse_paths_are_normalized() {
    assert_eq!(normalize_browse_path(None).unwrap(), "");
    assert_eq!(normalize_browse_path(Some(" ")).unwrap(), "");
    assert_eq!(normalize_browse_path(Some("a\\b/./c/")).unwrap(), "a/b/c");
    assert_eq!(
        normalize_browse_path(Some("/abs")).unwrap_err().message(),
        "storage path must be relative"
    );
    assert_eq!(
        normalize_browse_path(Some("a/../b")).unwrap_err().message(),
        "storage path must not contain .."
    );
}

#[test]
fn smb_patch_resolves_fields() {
    let current = StorageSettings {
        library: Some(smb("nas", "music", Some("old"))),
        presets: vec![],
    };
    let patch = StorageLocationPatch::Smb {
        host: "NAS".into(),
        port: 445,
        share: "music".into(),
        path: "x\\y".into(),
        username: StringPatchField::Missing,
        password: StringPatchField::Missing,
        workgroup: StringPatchField::Clear,
    };
    match storage_location_patch_to_location(&current, patch, |_| panic!("no encrypt")).unwrap() {
        StorageLocation::Smb {
            path,
            username,
            password_encrypted,
            workgroup,
            ..
        } => {
            assert_eq!(path, "x/y");
            assert_eq!(username.as_deref(), Some("user"));
            assert_eq!(password_encrypted.as_deref(), Some("old"));
            assert_eq!(workgroup, None);
        }
        _ => panic!("expected smb"),
    }
    let patch = StorageLocationPatch::Smb {
        host: "nas".into(),
        port: 445,
        share: "other".into(),
        path: String::new(),
        username: StringPatchField::Value(String::new()),
        password: StringPatchField::Value("pw".into()),
        workgroup: StringPatchField::Missing,
    };
    match storage_location_patch_to_location(&current, patch, |p| Ok(format!("enc:{p}"))).unwrap()
    {
        StorageLocation::Smb {
            username,
            password_encrypted,
            workgroup,
            ..
        } => {
            assert_eq!(username, None);
            assert_eq!(password_encrypted.as_deref(), Some("enc:pw"));
            assert_eq!(workgroup.as_deref(), Some("WORKGROUP"));
        }
        _ => panic!("expected smb"),
    }
}

#[test]
fn settings_view_hides_passwords() {
    let settings = StorageSettings {
        library: Some(smb("nas", "music", Some("secret"))),
        presets: vec![StoragePreset {
            id: "p1".into(),
            label: "Home".into(),
            location: StorageLocation::Local {
                path: "/m".into(),
            },
        }],
    };
    let status = StorageWatchStatus {
        state: StorageWatchState::Degraded,
        degraded_reason: Some("slow".into()),
    };
    let view = StorageSettingsView::from_with_watch_status(&settings, status);
    match view.library.unwrap() {
        StorageLocationView::Smb {
            password_configured,
            watch_status,
            ..
        } => {
            assert!(password_configured);
            assert_eq!(watch_status.degraded_reason.as_deref(), Some("slow"));
        }
        _ => panic!("expected smb"),
    }
    assert_eq!(view.presets[0].kind, "local");
    assert_eq!(view.presets[0].id, "p1");
}

fn scan_settings() -> LibraryScanSettings {
    LibraryScanSettings {
        worker_total: 8,
        enum_workers: 2,
        process_workers: 6,
        seed_depth: 3,
        index_queue_capacity: 1024,
        path_queue_capacity: 4096,
    }
}

#[test]
fn library_scan_patch_replaces_only_given_fields() {
    let patch = LibraryScanSettingsPatch {
        worker_total: Some(12),
        seed_depth: Some(1),
        ..Default::default()
    };
    let next = apply_library_scan_patch(&scan_settings(), &patch);
    assert_eq!(next.worker_total, 12);
    assert_eq!(next.enum_workers, 2);
    assert_eq!(next.process_workers, 6);
    assert_eq!(next.seed_depth, 1);
    assert_eq!(next.index_queue_capacity, 1024);
    assert_eq!(next.path_queue_capacity, 4096);
    let again = apply_library_scan_patch(&next, &patch);
    assert_eq!(again.worker_total, 12);
    assert_eq!(again.seed_depth, 1);
    let unchanged = apply_library_scan_patch(&scan_settings(), &LibraryScanSettingsPatch::default());
    assert_eq!(unchanged.worker_total, 8);
    assert_eq!(unchanged.path_queue_capacity, 4096);
}

#[test]
fn downloads_patch_sets_concurrency() {
    let current = DownloadsSettings { concurrency: 2 };
    assert_eq!(
        apply_downloads_patch(&current, &DownloadsSettingsPatch { concurrency: Some(5) }).concurrency,
        5
    );
    assert_eq!(apply_downloads_patch(&current, &DownloadsSettingsPatch::default()).concurrency, 2);
}

#[test]
fn qobuz_sync_patch_keeps_missing_fields() {
    let current = QobuzScheduledSyncSettings {
        enabled: false,
        cron_expression: "0 3 * * *".into(),
        auto_download_new_favorites: true,
    };
    let next = apply_qobuz_sync_patch(
        &current,
        &QobuzScheduledSyncSettingsPatch {
            enabled: Some(true),
            cron_expression: None,
            auto_download_new_favorites: Some(false),
        },
    );
    assert!(next.enabled);
    assert_eq!(next.cron_expression, "0 3 * * *");
    assert!(!next.auto_download_new_favorites);
    let next = apply_qobuz_sync_patch(
        &current,
        &QobuzScheduledSyncSettingsPatch {
            cron_expression: Some("*/5 * * * *".into()),
            ..Default::default()
        },
    );
    assert!(!next.enabled);
    assert_eq!(next.cron_expression, "*/5 * * * *");
}

#[test]
fn browse_target_accepts_only_configured_library() {
    let lib = StorageLocation::Local { path: "/music".into() };
    assert!(matches!(
        browse_target("library", Some(&lib)),
        Ok(StorageLocation::Local { path }) if path == "/music"
    ));
    let err = browse_target("downloads", Some(&lib)).unwrap_err();
    assert_eq!(err.message(), "only target=library is supported");
    let err = browse_target("library", None).unwrap_err();
    assert_eq!(err.message(), "library storage is not configured");
}
