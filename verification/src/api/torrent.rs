//! Torrent endpoints: inspecting a torrent and confirming which files to fetch.

use vstd::prelude::*;

verus! {

#[derive(Debug, Clone)]
pub struct TorrentInspectFile {
    pub index: usize,
    pub path: String,
    pub size_bytes: u64,
    pub selected: bool,
}

#[derive(Debug, Clone)]
pub struct TorrentInspectResponse {
    pub inspect_id: String,
    pub name: String,
    pub total_size_bytes: u64,
    pub info_hash_v1: String,
    pub info_hash_v2: Option<String>,
    pub comment: Option<String>,
    pub free_space_bytes: Option<u64>,
    pub files: Vec<TorrentInspectFile>,
}

#[derive(Debug, Clone)]
pub struct TorrentInspectMagnetRequest {
    pub magnet: String,
}

#[derive(Debug, Clone)]
pub struct TorrentConfirmFile {
    pub index: usize,
    pub selected: bool,
}

#[derive(Debug, Clone)]
pub struct TorrentConfirmRequest {
    pub inspect_id: String,
    pub files: Vec<TorrentConfirmFile>,
    pub copy_to_library: bool,
    pub auto_index_after_import: bool,
}

} // verus!
