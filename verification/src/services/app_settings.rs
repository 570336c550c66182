//! Where the library lives: the active storage location and saved presets.

use vstd::prelude::*;

verus! {

/// A library storage location: a local directory, or a directory on an SMB
/// share whose password is kept encrypted.
#[derive(Debug, Clone)]
pub enum StorageLocation {
    Local { path: String },
    Smb {
        host: String,
        port: u16,
        share: String,
        path: String,
        username: Option<String>,
        password_encrypted: Option<String>,
        workgroup: Option<String>,
    },
}

/// A saved storage location the user can switch to.
#[derive(Debug, Clone)]
pub struct StoragePreset {
    pub id: String,
    pub label: String,
    pub location: StorageLocation,
}

#[derive(Debug, Clone)]
pub struct StorageSettings {
    pub library: Option<StorageLocation>,
    pub presets: Vec<StoragePreset>,
}

/// Library scan settings kept in the settings store.
#[derive(Debug, Clone)]
pub struct LibraryScanSettings {
    pub worker_total: u32,
    pub enum_workers: u32,
    pub process_workers: u32,
    pub seed_depth: u32,
    pub index_queue_capacity: u32,
    pub path_queue_capacity: u32,
}

/// Download settings kept in the settings store.
#[derive(Debug, Clone)]
pub struct DownloadsSettings {
    pub concurrency: u32,
}

/// Settings of the scheduled Qobuz favorites sync.
#[derive(Debug, Clone)]
pub struct QobuzScheduledSyncSettings {
    pub enabled: bool,
    pub cron_expression: String,
    pub auto_download_new_favorites: bool,
}

} // verus!
