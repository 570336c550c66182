use euterpe_server::db::qobuz_accounts::{QobuzAccountListItem, QobuzAccountRecord};
use euterpe_server::routes::qobuz::{
    account_list, active_account_from_setting, connection_status_response,
    oauth_connected_redirect,
};

fn stored(id: i64, label: Option<&str>) -> QobuzAccountListItem {
    QobuzAccountListItem {
        id,
        label: label.map(Into::into),
        qobuz_user_id: 100 + id,
        display_name: Some(format!("user {id}")),
        membership_label: Some("Studio".into()),
        uat_obtained_at: "2024-05-01 10:00:00".into(),
        uat_expires_at: None,
        created_at: "2024-05-01 10:00:00".into(),
        updated_at: "2024-05-01 10:00:00".into(),
    }
}

#[test]
fn oauth_redirect_points_at_settings() {
    assert_eq!(
        oauth_connected_redirect("https://music.example", 7),
        "https://music.example/settings?qobuz=connected&account_id=7"
    );
}

#[test]
fn active_setting_must_parse() {
    assert_eq!(active_account_from_setting(Some("12")), Some(12));
    assert_eq!(active_account_from_setting(Some("x12")), None);
    assert_eq!(active_account_from_setting(None), None);
}

#[test]
fn account_list_marks_active_account() {
    let rows = vec![stored(1, Some("main")), stored(2, None)];
    let listed = account_list(&rows, Some(2));
    assert_eq!(listed.items.len(), 2);
    assert!(!listed.items[0].is_active);
    assert!(listed.items[1].is_active);
    assert_eq!(listed.items[0].label.as_deref(), Some("main"));
    assert_eq!(listed.items[1].qobuz_user_id, 102);
    assert!(account_list(&rows, None).items.iter().all(|i| !i.is_active));
}

#[test]
fn connection_status_uses_active_row() {
    let row = QobuzAccountRecord {
        id: 3,
        qobuz_user_id: 555,
        uat_encrypted: "x".into(),
        display_name: Some("Ann".into()),
        membership_label: Some("Sublime".into()),
        uat_obtained_at: "t".into(),
        uat_expires_at: None,
    };
    let status = connection_status_response(true, Some(3), Some(&row), false);
    assert!(status.connected);
    assert_eq!(status.qobuz_user_id, Some(555));
    assert_eq!(status.display_name.as_deref(), Some("Ann"));
    assert!(!status.master_key_configured);
    let status = connection_status_response(false, None, None, true);
    assert_eq!(status.qobuz_user_id, None);
    assert!(status.master_key_configured);
}
