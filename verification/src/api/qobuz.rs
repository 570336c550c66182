//! Qobuz endpoints: login test, favorites sync and the favorites listing.

use vstd::prelude::*;

verus! {

#[derive(Debug, Clone)]
pub struct QobuzTestLoginRequest {
    pub user_id: u64,
    pub auth_token: String,
    pub persist: bool,
}

#[derive(Debug, Clone)]
pub struct QobuzTestLoginResponse {
    pub membership: String,
    pub user_auth_token_refreshed: bool,
}

#[derive(Debug, Clone)]
pub struct QobuzSyncResponse {
    pub run_id: i64,
    pub albums_total: i64,
    pub added: i64,
    pub removed: i64,
}

#[derive(Debug, Clone)]
pub struct QobuzSyncRunSummary {
    pub id: i64,
    pub status: String,
    pub started_at: String,
    pub finished_at: Option<String>,
    pub albums_total: Option<i64>,
    pub albums_added: Option<i64>,
    pub albums_removed: Option<i64>,
    pub error_message: Option<String>,
}

#[derive(Debug, Clone)]
pub struct QobuzSyncLatestResponse {
    pub run: Option<QobuzSyncRunSummary>,
}

#[derive(Debug, Clone)]
pub struct QobuzFavoriteItem {
    /// Value for `album/get` and `POST /downloads` (`album_api_id`).
    pub album_api_id: String,
    /// Catalog id when known (from `qobuz_id` in Qobuz JSON).
    pub qobuz_id: i64,
    pub title: String,
    pub artist_name: String,
    pub in_library: bool,
    pub local_album_id: Option<i64>,
}

#[derive(Debug, Clone)]
pub struct QobuzFavoritesListResponse {
    pub items: Vec<QobuzFavoriteItem>,
    pub total: i64,
}

#[derive(Debug, Clone)]
pub struct QobuzFavoritesMutateRequest {
    pub album_ids: Vec<u64>,
}

/// Where a Qobuz OAuth login starts.
#[derive(Debug, Clone)]
pub struct QobuzOAuthStartResponse {
    pub authorize_url: String,
    pub state: String,
}

/// Whether Qobuz is connected, and which account is active.
#[derive(Debug, Clone)]
pub struct QobuzConnectionStatusResponse {
    pub connected: bool,
    pub active_account_id: Option<i64>,
    pub qobuz_user_id: Option<i64>,
    pub display_name: Option<String>,
    pub membership_label: Option<String>,
    pub master_key_configured: bool,
}

/// A linked account as the API lists it.
#[derive(Debug, Clone)]
pub struct QobuzAccountListItem {
    pub id: i64,
    pub label: Option<String>,
    pub qobuz_user_id: i64,
    pub display_name: Option<String>,
    pub membership_label: Option<String>,
    pub uat_obtained_at: String,
    pub is_active: bool,
}

#[derive(Debug, Clone)]
pub struct QobuzAccountsListResponse {
    pub items: Vec<QobuzAccountListItem>,
}

} // verus!
