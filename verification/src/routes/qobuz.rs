//! Qobuz account routes: the OAuth redirect back to the settings page, and
//! how stored accounts and the active-account setting are reported.

use vstd::prelude::*;

use crate::api::qobuz::{QobuzAccountListItem, QobuzAccountsListResponse, QobuzConnectionStatusResponse};
use crate::db::qobuz_accounts::{QobuzAccountListItem as StoredAccount, QobuzAccountRecord};
use crate::library::tags::{clone_opt, opt_view};
use crate::text::{append_chars, chars_of, dec_int, fmt_i64, parse_i64, parse_i64_spec, string_of};

verus! {

/// Query of the OAuth callback (Qobuz sends the code as
/// `code_autorisation`; `code` and `code_authorization` are accepted too).
#[derive(Debug, Clone)]
pub struct OAuthCallbackQuery {
    pub code: String,
    pub state: Option<String>,
}

/// Where the browser goes once an account is connected.
pub fn oauth_connected_redirect(public_base_url: &str, account_id: i64) -> (r: String)
    ensures
        r@ == public_base_url@ + "/settings?qobuz=connected&account_id="@ + dec_int(account_id as int),
{
    let mut v = chars_of(public_base_url);
    let mid = chars_of("/settings?qobuz=connected&account_id=");
    append_chars(&mut v, mid.as_slice());
    let id = fmt_i64(account_id);
    append_chars(&mut v, id.as_slice());
    string_of(v.as_slice())
}

pub open spec fn setting_account_id(value: Option<Seq<char>>) -> Option<i64> {
    match value {
        Some(s) => parse_i64_spec(s),
        None => None,
    }
}

/// The active account id from its stored setting; a value that does not
/// parse counts as none.
pub fn active_account_from_setting(value: Option<&str>) -> (r: Option<i64>)
    ensures
        r == setting_account_id(match value {
            Some(s) => Some(s@),
            None => None,
        }),
{
    match value {
        Some(s) => parse_i64(chars_of(s).as_slice()),
        None => None,
    }
}

/// The connection status: the active account's details when its row exists.
pub fn connection_status_response(
    connected: bool,
    active_account_id: Option<i64>,
    row: Option<&QobuzAccountRecord>,
    master_key_configured: bool,
) -> (r: QobuzConnectionStatusResponse)
    ensures
        r.connected == connected,
        r.active_account_id == active_account_id,
        r.master_key_configured == master_key_configured,
        row matches Some(a) ==> r.qobuz_user_id == Some(a.qobuz_user_id) && opt_view(r.display_name)
            == opt_view(a.display_name) && opt_view(r.membership_label) == opt_view(
            a.membership_label,
        ),
        row is None ==> r.qobuz_user_id is None && r.display_name is None && r.membership_label is None,
{
    let (qobuz_user_id, display_name, membership_label) = match row {
        Some(a) => (Some(a.qobuz_user_id), clone_opt(&a.display_name), clone_opt(&a.membership_label)),
        None => (None, None, None),
    };
    QobuzConnectionStatusResponse {
        connected,
        active_account_id,
        qobuz_user_id,
        display_name,
        membership_label,
        master_key_configured,
    }
}

pub open spec fn listed_as(item: QobuzAccountListItem, row: StoredAccount, active: Option<i64>) -> bool {
    &&& item.id == row.id
    &&& opt_view(item.label) == opt_view(row.label)
    &&& item.qobuz_user_id == row.qobuz_user_id
    &&& opt_view(item.display_name) == opt_view(row.display_name)
    &&& opt_view(item.membership_label) == opt_view(row.membership_label)
    &&& item.uat_obtained_at@ == row.uat_obtained_at@
    &&& item.is_active == (active == Some(row.id))
}

/// The accounts as listed, in stored order; the one whose id the active
/// setting names is marked active.
pub fn account_list(rows: &Vec<StoredAccount>, active: Option<i64>) -> (r: QobuzAccountsListResponse)
    ensures
        r.items.len() == rows.len(),
        forall|i: int| 0 <= i < rows.len() ==> listed_as(#[trigger] r.items@[i], rows@[i], active),
{
    let mut items: Vec<QobuzAccountListItem> = Vec::new();
    let mut i: usize = 0;
    while i < rows.len()
        invariant
            i <= rows.len(),
            items.len() == i,
            forall|j: int| 0 <= j < i ==> listed_as(#[trigger] items@[j], rows@[j], active),
        decreases rows.len() - i,
    {
        let row = &rows[i];
        let is_active = match active {
            Some(id) => id == row.id,
            None => false,
        };
        items.push(QobuzAccountListItem {
            id: row.id,
            label: clone_opt(&row.label),
            qobuz_user_id: row.qobuz_user_id,
            display_name: clone_opt(&row.display_name),
            membership_label: clone_opt(&row.membership_label),
            uat_obtained_at: row.uat_obtained_at.clone(),
            is_active,
        });
        i += 1;
    }
    QobuzAccountsListResponse { items }
}

} // verus!
