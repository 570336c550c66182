//! Library endpoints: albums, tracks, scans and cue sheets as the API shows them.

use vstd::prelude::*;

verus! {

#[derive(Debug, Clone)]
pub struct CueIssue {
    pub code: String,
    pub message: String,
    pub severity: String,
    pub field: Option<String>,
    pub track_number: Option<i32>,
    pub line: Option<i32>,
    pub column: Option<i32>,
}

#[derive(Debug, Clone)]
pub struct CueExtraField {
    pub scope: String,
    pub track_number: Option<i32>,
    pub key: String,
    pub value: String,
}

#[derive(Debug, Clone)]
pub struct CueFileChoice {
    pub path: String,
    pub selected: bool,
}

#[derive(Debug, Clone)]
pub struct CueTrack {
    pub number: i32,
    pub artist: Option<String>,
    pub title: String,
    pub genre: Option<String>,
    pub start_index: String,
    pub pregap: Option<String>,
    pub duration: Option<String>,
    pub selected: bool,
}

#[derive(Debug, Clone)]
pub struct CueDocument {
    pub cue_path: String,
    pub audio_path: String,
    pub audio_format: String,
    pub album_title: String,
    pub album_artist: String,
    pub year: Option<i32>,
    pub genre: Option<String>,
    pub comment: Option<String>,
    pub extra_fields: Vec<CueExtraField>,
    pub tracks: Vec<CueTrack>,
}

#[derive(Debug, Clone)]
pub struct CueValidationResponse {
    pub valid: bool,
    pub issues: Vec<CueIssue>,
}

#[derive(Debug, Clone)]
pub struct CueAlbumResponse {
    pub cue_files: Vec<CueFileChoice>,
    pub document: CueDocument,
    pub validation: CueValidationResponse,
}

#[derive(Debug, Clone)]
pub struct CueValidateRequest {
    pub document: CueDocument,
}

#[derive(Debug, Clone)]
pub struct CueSplitRequest {
    pub document: CueDocument,
    pub source_file_policy: String,
    pub file_mask: Option<String>,
}

#[derive(Debug, Clone)]
pub struct CueSplitResponse {
    pub job_id: i64,
}

#[derive(Debug, Clone)]
pub struct LibraryScanStartResponse {
    pub scan_id: i64,
}

#[derive(Debug, Clone)]
pub struct LibraryScanRunSummary {
    pub id: i64,
    pub status: String,
    /// Audio files discovered during enumerate (live while total unknown).
    pub files_seen: i64,
    /// Paths for which index job was queued (tags + hash done).
    pub files_processed: i64,
    pub files_indexed: i64,
    /// Set when enumerate finished; 0 while still discovering.
    pub files_total: i64,
    pub started_at: String,
    pub finished_at: Option<String>,
    pub error_message: Option<String>,
}

#[derive(Debug, Clone)]
pub struct LibraryScanLatestResponse {
    pub run: Option<LibraryScanRunSummary>,
}

#[derive(Debug, Clone)]
pub struct ScanProgressEvent {
    pub scan_id: i64,
    pub files_seen: i64,
    pub files_processed: i64,
    pub files_indexed: i64,
    pub files_total: i64,
}

#[derive(Debug, Clone)]
pub struct LibraryAlbumItem {
    pub id: i64,
    pub title: String,
    pub artist_name: String,
    pub year: Option<i32>,
    pub track_count: i64,
    pub cover_path: Option<String>,
    pub has_cue_files: bool,
}

#[derive(Debug, Clone)]
pub struct LibraryAlbumListResponse {
    pub items: Vec<LibraryAlbumItem>,
    pub next_cursor: Option<String>,
    pub has_more: bool,
}

#[derive(Debug, Clone)]
pub struct LibraryTrackItem {
    pub id: i64,
    pub title: String,
    pub track_number: Option<i32>,
    pub year: Option<i32>,
    pub disc_number: Option<i32>,
    pub genre: Option<String>,
    pub path: String,
    pub duration_sec: Option<i32>,
}

#[derive(Debug, Clone)]
pub struct LibraryAlbumDetailResponse {
    pub id: i64,
    pub title: String,
    pub artist_name: String,
    pub year: Option<i32>,
    pub cover_path: Option<String>,
    pub genre: Option<String>,
    pub track_total: Option<i32>,
    pub disc_total: Option<i32>,
    pub has_convertible_tracks: bool,
    pub has_cue_files: bool,
    pub tracks: Vec<LibraryTrackItem>,
}

#[derive(Debug, Clone)]
pub struct LibraryAlbumTagsPatchRequest {
    pub artist_name: Option<String>,
    pub album_title: Option<String>,
    pub year: Option<i32>,
    pub genre: Option<String>,
    pub track_total: Option<i32>,
    pub disc_total: Option<i32>,
}

#[derive(Debug, Clone)]
pub struct LibraryTrackDetailResponse {
    pub id: i64,
    pub album_id: i64,
    pub title: String,
    pub artist_name: String,
    pub album_title: String,
    pub track_number: Option<i32>,
    pub year: Option<i32>,
    pub disc_number: Option<i32>,
    pub genre: Option<String>,
    pub path: String,
    pub duration_sec: Option<i32>,
}

#[derive(Debug, Clone)]
pub struct AlbumCoverUploadResponse {
    pub cover_path: String,
    pub tracks_embedded: u32,
}

#[derive(Debug, Clone)]
pub struct LibraryTrackTagsPatchRequest {
    pub title: Option<String>,
    pub artist_name: Option<String>,
    pub album_title: Option<String>,
    pub track_number: Option<i32>,
    pub year: Option<i32>,
    pub disc_number: Option<i32>,
    pub genre: Option<String>,
}

} // verus!
