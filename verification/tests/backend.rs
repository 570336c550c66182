use euterpe_server::crypto::MasterKey;
use euterpe_server::library::backend::{storage_backend_for_location, StorageBackendPlan};
use euterpe_server::services::app_settings::StorageLocation;

fn smb(password: Option<String>) -> StorageLocation {
    StorageLocation::Smb {
        host: "nas.local".into(),
        port: 445,
        share: "music".into(),
        path: "library".into(),
        username: Some("bob".into()),
        password_encrypted: password,
        workgroup: Some("HOME".into()),
    }
}

#[test]
fn local_location_opens_local_backend() {
    let plan = storage_backend_for_location(&StorageLocation::Local { path: "/srv/music".into() }, None).unwrap();
    assert!(matches!(plan, StorageBackendPlan::Local { path } if path == "/srv/music"));
}

#[test]
fn smb_location_decrypts_password() {
    let key = MasterKey::parse(&hex::encode([3u8; 32])).unwrap();
    let enc = key.encrypt("s3cret").unwrap();
    match storage_backend_for_location(&smb(Some(enc)), Some(&key)).unwrap() {
        StorageBackendPlan::Smb { host, port, share, path, credentials } => {
            assert_eq!(host, "nas.local");
            assert_eq!(port, 445);
            assert_eq!(share, "music");
            assert_eq!(path, "library");
            assert_eq!(credentials.username, "HOME\\bob");
            assert_eq!(credentials.password, "s3cret");
        }
        _ => panic!("expected smb"),
    }
}

#[test]
fn smb_without_password_needs_no_key() {
    match storage_backend_for_location(&smb(None), None).unwrap() {
        StorageBackendPlan::Smb { credentials, .. } => assert_eq!(credentials.password, ""),
        _ => panic!("expected smb"),
    }
}

#[test]
fn smb_password_requires_master_key() {
    let err = storage_backend_for_location(&smb(Some("abc".into())), None).unwrap_err();
    assert_eq!(err.message(), "EUTERPE_MASTER_KEY is required for SMB library storage");
}
