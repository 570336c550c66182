//! Linked Qobuz accounts as the store lists and returns them.

use vstd::prelude::*;

verus! {

/// An account as listed, without its token.
#[derive(Debug, Clone)]
pub struct QobuzAccountListItem {
    pub id: i64,
    pub label: Option<String>,
    pub qobuz_user_id: i64,
    pub display_name: Option<String>,
    pub membership_label: Option<String>,
    pub uat_obtained_at: String,
    pub uat_expires_at: Option<String>,
    pub created_at: String,
    pub updated_at: String,
}

/// An account with its encrypted user token.
#[derive(Debug, Clone)]
pub struct QobuzAccountRecord {
    pub id: i64,
    pub qobuz_user_id: i64,
    pub uat_encrypted: String,
    pub display_name: Option<String>,
    pub membership_label: Option<String>,
    pub uat_obtained_at: String,
    pub uat_expires_at: Option<String>,
}

} // verus!
