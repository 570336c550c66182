//! Settings endpoints: how stored settings are shown, and the patches and
//! requests that change them.

use vstd::prelude::*;

use crate::api::qobuz::QobuzSyncRunSummary;
use crate::library::tags::{clone_opt, opt_view};
use crate::services::app_settings::{
    DownloadsSettings, LibraryScanSettings, QobuzScheduledSyncSettings, StorageLocation,
    StoragePreset, StorageSettings,
};
use crate::services::storage_watch::{StorageWatchState, StorageWatchStatus};
use crate::text::str_to_string;

verus! {

#[derive(Debug, Clone)]
pub struct LibraryScanSettingsResponse {
    pub settings: LibraryScanSettings,
}

#[derive(Debug, Clone, Default)]
pub struct LibraryScanSettingsPatch {
    pub worker_total: Option<u32>,
    pub enum_workers: Option<u32>,
    pub process_workers: Option<u32>,
    pub seed_depth: Option<u32>,
    pub index_queue_capacity: Option<u32>,
    pub path_queue_capacity: Option<u32>,
}

#[derive(Debug, Clone)]
pub struct DownloadsSettingsResponse {
    pub settings: DownloadsSettings,
}

#[derive(Debug, Clone, Default)]
pub struct DownloadsSettingsPatch {
    pub concurrency: Option<u32>,
}

#[derive(Debug, Clone)]
pub struct QobuzScheduledSyncSettingsResponse {
    pub settings: QobuzScheduledSyncSettings,
    pub status: QobuzScheduledSyncStatus,
}

#[derive(Debug, Clone)]
pub struct QobuzScheduledSyncStatus {
    pub server_timezone: String,
    pub next_run_at: Option<String>,
    pub last_run: Option<QobuzSyncRunSummary>,
}

#[derive(Debug, Clone, Default)]
pub struct QobuzScheduledSyncSettingsPatch {
    pub enabled: Option<bool>,
    pub cron_expression: Option<String>,
    pub auto_download_new_favorites: Option<bool>,
}

#[derive(Debug, Clone)]
pub struct StorageSettingsResponse {
    pub settings: StorageSettingsView,
    pub storage_migration_hint: Option<String>,
    pub recommend_full_scan: Option<bool>,
}

#[derive(Debug, Clone)]
pub struct StorageSettingsView {
    pub library: Option<StorageLocationView>,
    pub presets: Vec<StoragePresetView>,
}

#[derive(Debug, Clone)]
pub struct StoragePresetView {
    pub id: String,
    pub label: String,
    pub kind: String,
}

/// A storage location as shown to clients: no password, only whether one
/// is stored.
#[derive(Debug, Clone)]
pub enum StorageLocationView {
    Local { path: String, watch_status: StorageWatchStatusView },
    Smb {
        host: String,
        port: u16,
        share: String,
        path: String,
        watch_status: StorageWatchStatusView,
        username: Option<String>,
        workgroup: Option<String>,
        password_configured: bool,
    },
}

#[derive(Debug, Clone)]
pub struct StorageWatchStatusView {
    pub state: StorageWatchStateView,
    pub degraded_reason: Option<String>,
}

#[derive(Debug, Clone, Copy, PartialEq, Eq, Structural)]
pub enum StorageWatchStateView {
    Disabled,
    Connected,
    Degraded,
    Reconnecting,
}

pub open spec fn state_view(s: StorageWatchState) -> StorageWatchStateView {
    match s {
        StorageWatchState::Disabled => StorageWatchStateView::Disabled,
        StorageWatchState::Connected => StorageWatchStateView::Connected,
        StorageWatchState::Degraded => StorageWatchStateView::Degraded,
        StorageWatchState::Reconnecting => StorageWatchStateView::Reconnecting,
    }
}

impl From<StorageWatchStatus> for StorageWatchStatusView {
    fn from(value: StorageWatchStatus) -> (r: StorageWatchStatusView) {
        StorageWatchStatusView {
            state: match value.state {
                StorageWatchState::Disabled => StorageWatchStateView::Disabled,
                StorageWatchState::Connected => StorageWatchStateView::Connected,
                StorageWatchState::Degraded => StorageWatchStateView::Degraded,
                StorageWatchState::Reconnecting => StorageWatchStateView::Reconnecting,
            },
            degraded_reason: value.degraded_reason,
        }
    }
}

impl vstd::std_specs::convert::FromSpecImpl<StorageWatchStatus> for StorageWatchStatusView {
    open spec fn obeys_from_spec() -> bool {
        true
    }

    open spec fn from_spec(value: StorageWatchStatus) -> StorageWatchStatusView {
        StorageWatchStatusView {
            state: state_view(value.state),
            degraded_reason: value.degraded_reason,
        }
    }
}

/// The shown status is the watcher's state and reason.
pub open spec fn watch_view_is(v: StorageWatchStatusView, s: StorageWatchStatus) -> bool {
    v.state == state_view(s.state) && opt_view(v.degraded_reason) == opt_view(s.degraded_reason)
}

/// How a location is shown: its fields without the password, whether a
/// password is stored, and the watcher status; a local location always
/// shows a disabled watcher.
pub open spec fn location_view_is(
    v: StorageLocationView,
    l: StorageLocation,
    w: StorageWatchStatus,
) -> bool {
    match l {
        StorageLocation::Local { path } => match v {
            StorageLocationView::Local { path: p, watch_status } => p@ == path@
                && watch_status.state == StorageWatchStateView::Disabled
                && watch_status.degraded_reason is None,
            _ => false,
        },
        StorageLocation::Smb { host, port, share, path, username, password_encrypted, workgroup } => match v {
            StorageLocationView::Smb {
                host: h,
                port: p,
                share: s,
                path: pa,
                watch_status,
                username: u,
                workgroup: wg,
                password_configured,
            } => h@ == host@ && p == port && s@ == share@ && pa@ == path@ && watch_view_is(
                watch_status,
                w,
            ) && opt_view(u) == opt_view(username) && opt_view(wg) == opt_view(workgroup)
                && password_configured == password_encrypted is Some,
            _ => false,
        },
    }
}

/// The kind of a location: `local` or `smb`.
pub open spec fn location_kind(l: StorageLocation) -> Seq<char> {
    match l {
        StorageLocation::Local { .. } => "local"@,
        StorageLocation::Smb { .. } => "smb"@,
    }
}

fn watch_view(w: &StorageWatchStatus) -> (r: StorageWatchStatusView)
    ensures
        watch_view_is(r, *w),
{
    StorageWatchStatusView {
        state: match w.state {
            StorageWatchState::Disabled => StorageWatchStateView::Disabled,
            StorageWatchState::Connected => StorageWatchStateView::Connected,
            StorageWatchState::Degraded => StorageWatchStateView::Degraded,
            StorageWatchState::Reconnecting => StorageWatchStateView::Reconnecting,
        },
        degraded_reason: clone_opt(&w.degraded_reason),
    }
}

/// How a stored location is shown with watcher status `watch_status`.
pub fn storage_location_view(library: &StorageLocation, watch_status: &StorageWatchStatus) -> (r:
    StorageLocationView)
    ensures
        location_view_is(r, *library, *watch_status),
{
    match library {
        StorageLocation::Local { path } => StorageLocationView::Local {
            path: path.clone(),
            watch_status: watch_view(&StorageWatchStatus::disabled()),
        },
        StorageLocation::Smb { host, port, share, path, username, workgroup, password_encrypted } => {
            StorageLocationView::Smb {
                host: host.clone(),
                port: *port,
                share: share.clone(),
                path: path.clone(),
                watch_status: watch_view(watch_status),
                username: clone_opt(username),
                workgroup: clone_opt(workgroup),
                password_configured: password_encrypted.is_some(),
            }
        },
    }
}

fn location_kind_string(l: &StorageLocation) -> (r: String)
    ensures
        r@ == location_kind(*l),
{
    match l {
        StorageLocation::Local { .. } => str_to_string("local"),
        StorageLocation::Smb { .. } => str_to_string("smb"),
    }
}

impl StorageSettingsView {
    /// Settings as shown to clients: the library location with the watcher
    /// status, and each preset's id, label and kind.
    pub fn from_with_watch_status(value: &StorageSettings, watch_status: StorageWatchStatus) -> (r:
        StorageSettingsView)
        ensures
            match value.library {
                Some(l) => r.library matches Some(v) && location_view_is(v, l, watch_status),
                None => r.library is None,
            },
            r.presets@.len() == value.presets@.len(),
            forall|i: int|
                0 <= i < value.presets@.len() ==> (#[trigger] r.presets@[i]).id@
                    == value.presets@[i].id@ && r.presets@[i].label@ == value.presets@[i].label@
                    && r.presets@[i].kind@ == location_kind(value.presets@[i].location),
    {
        let library = match &value.library {
            Some(l) => Some(storage_location_view(l, &watch_status)),
            None => None,
        };
        let mut presets: Vec<StoragePresetView> = Vec::new();
        let mut i: usize = 0;
        while i < value.presets.len()
            invariant
                i <= value.presets@.len(),
                presets@.len() == i,
                forall|j: int|
                    0 <= j < i ==> (#[trigger] presets@[j]).id@ == value.presets@[j].id@
                        && presets@[j].label@ == value.presets@[j].label@ && presets@[j].kind@
                        == location_kind(value.presets@[j].location),
            decreases value.presets@.len() - i,
        {
            let p: &StoragePreset = &value.presets[i];
            presets.push(
                StoragePresetView {
                    id: p.id.clone(),
                    label: p.label.clone(),
                    kind: location_kind_string(&p.location),
                },
            );
            i += 1;
        }
        StorageSettingsView { library, presets }
    }
}

#[derive(Debug, Clone)]
pub struct StorageSettingsPatch {
    pub activate_preset_id: Option<String>,
    pub library: Option<StorageLocationPatch>,
}

#[derive(Debug, Clone)]
pub enum StorageLocationPatch {
    Local { path: String },
    Smb {
        host: String,
        port: u16,
        share: String,
        path: String,
        username: StringPatchField,
        password: StringPatchField,
        workgroup: StringPatchField,
    },
}

/// A string field of a patch: left out, set to null, or given a value.
#[derive(Debug, Clone)]
pub enum StringPatchField {
    Missing,
    Clear,
    Value(String),
}

impl Default for StringPatchField {
    fn default() -> (r: StringPatchField)
        ensures
            r is Missing,
    {
        StringPatchField::Missing
    }
}

/// The SMB port a request that names none uses.
pub fn default_smb_port() -> (r: u16)
    ensures
        r == 445,
{
    445
}

#[derive(Debug, Clone)]
pub struct StorageTestRequest {
    pub location: StorageLocationPatch,
}

#[derive(Debug, Clone)]
pub struct StorageTestResponse {
    pub ok: bool,
}

#[derive(Debug, Clone)]
pub struct StorageBrowseResponse {
    pub entries: Vec<StorageBrowseEntry>,
}

#[derive(Debug, Clone)]
pub struct StorageBrowseRequest {
    pub location: StorageLocationPatch,
    pub path: Option<String>,
}

#[derive(Debug, Clone)]
pub struct StorageBrowseEntry {
    pub name: String,
    pub path: String,
    pub is_dir: bool,
    pub size: Option<u64>,
}

#[derive(Debug, Clone)]
pub struct SmbSharesRequest {
    pub host: String,
    pub port: u16,
    pub username: Option<String>,
    pub password: Option<String>,
    pub workgroup: Option<String>,
}

#[derive(Debug, Clone)]
pub struct SmbSharesResponse {
    pub shares: Vec<String>,
}

} // verus!
