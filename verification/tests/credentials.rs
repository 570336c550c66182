use euterpe_server::credentials::{active_account_id, credentials_from_account, membership_label};
use euterpe_server::crypto::MasterKey;
use euterpe_server::db::qobuz_accounts::QobuzAccountRecord;
use euterpe_server::error::ApiError;

fn record(uat_encrypted: String) -> QobuzAccountRecord {
    QobuzAccountRecord {
        id: 1,
        qobuz_user_id: 4242,
        uat_encrypted,
        display_name: None,
        membership_label: None,
        uat_obtained_at: "2024-01-01T00:00:00Z".into(),
        uat_expires_at: None,
    }
}

#[test]
fn active_account_id_parses_setting() {
    assert_eq!(active_account_id("17").unwrap(), 17);
    assert_eq!(active_account_id("-3").unwrap(), -3);
    assert_eq!(active_account_id("9223372036854775807").unwrap(), i64::MAX);
    assert_eq!(active_account_id("-9223372036854775808").unwrap(), i64::MIN);
    match active_account_id("abc") {
        Err(ApiError::Config(m)) => {
            assert_eq!(m, "invalid qobuz.active_account_id: invalid digit found in string")
        }
        other => panic!("unexpected {other:?}"),
    }
    assert!(active_account_id("9223372036854775808").is_err());
    assert!(active_account_id("").is_err());
}

#[test]
fn credentials_decrypt_stored_token() {
    let key = MasterKey::parse(&hex::encode([9u8; 32])).unwrap();
    let enc = key.encrypt("user-auth-token").unwrap();
    let creds = credentials_from_account(&record(enc), Some(&key)).unwrap();
    assert_eq!(creds.user_id, 4242);
    assert_eq!(creds.auth_token, "user-auth-token");
}

#[test]
fn credentials_require_master_key() {
    let err = credentials_from_account(&record("x".into()), None).unwrap_err();
    assert_eq!(err.message(), "EUTERPE_MASTER_KEY is required for Qobuz accounts");
    let key = MasterKey::parse(&hex::encode([9u8; 32])).unwrap();
    let err = credentials_from_account(&record("AAAA".into()), Some(&key)).unwrap_err();
    assert_eq!(err.message(), "ciphertext too short");
}

#[test]
fn membership_label_reflects_authentication() {
    assert_eq!(membership_label(true), "Qobuz");
    assert_eq!(membership_label(false), "Unknown");
}
