//! The download routes' decisions: listing parameters, the filter
//! fingerprint, priority moves, and what deleting a job does.

use vstd::prelude::*;

use crate::api::downloads::{status_text, DownloadJobStatus, DownloadJobType};
use crate::api::keyset::SortOrder;
use crate::codec::{json_quote, json_string_literal};
use crate::db::download_jobs::{DownloadsSort, PriorityDirection};
use crate::error::{is_message, ApiError};
use crate::text::{
    append_chars, chars_of, dec_int, eq_ignore_case, eq_ignore_case_str, fmt_i64, str_is,
    string_of, trim, trim_chars,
};

verus! {

/// Query of `GET /downloads`.
#[derive(Debug, Clone)]
pub struct ListDownloadsQuery {
    pub status: Option<DownloadJobStatus>,
    pub limit: u32,
    pub sort: String,
    pub order: Option<String>,
    pub cursor: Option<String>,
}

/// Page size when the query gives none.
pub fn default_download_limit() -> (r: u32)
    ensures
        r == 100,
{
    100
}

/// Sort when the query gives none.
pub fn default_download_sort() -> (r: String)
    ensures
        r@ == "queue_position"@,
{
    "queue_position".to_string()
}

/// Query of `DELETE /downloads/{id}`.
#[derive(Debug, Clone)]
pub struct DeleteDownloadQuery {
    /// `1` or `true` (any case): delete the row of a finished job.
    pub purge: Option<String>,
}

pub open spec fn purge_spec(p: Option<Seq<char>>) -> bool {
    match p {
        Some(s) => s == "1"@ || eq_ignore_case(s, "true"@),
        None => false,
    }
}

pub fn purge_requested(q: &DeleteDownloadQuery) -> (r: bool)
    ensures
        r == purge_spec(
            match q.purge {
                Some(s) => Some(s@),
                None => None,
            },
        ),
{
    match &q.purge {
        Some(s) => str_is(s.as_str(), "1") || eq_ignore_case_str(s.as_str(), "true"),
        None => false,
    }
}

/// The order of a download listing: as given (`asc` or `desc`), else
/// ascending by queue position and newest first for the other sorts.
pub open spec fn downloads_order_spec(sort: DownloadsSort, order: Option<Seq<char>>) -> Result<
    SortOrder,
    Seq<char>,
> {
    match order {
        None => if sort == DownloadsSort::QueuePosition {
            Ok(SortOrder::Asc)
        } else {
            Ok(SortOrder::Desc)
        },
        Some(s) => if s == "asc"@ {
            Ok(SortOrder::Asc)
        } else if s == "desc"@ {
            Ok(SortOrder::Desc)
        } else {
            Err("order must be asc or desc"@)
        },
    }
}

pub fn downloads_order(sort: DownloadsSort, order: Option<&str>) -> (r: Result<SortOrder, ApiError>)
    ensures
        match downloads_order_spec(
            sort,
            match order {
                Some(s) => Some(s@),
                None => None,
            },
        ) {
            Ok(o) => r == Ok::<SortOrder, ApiError>(o),
            Err(m) => r matches Err(e) && is_message(e, m),
        },
{
    match order {
        None => {
            if sort == DownloadsSort::QueuePosition {
                Ok(SortOrder::Asc)
            } else {
                Ok(SortOrder::Desc)
            }
        },
        Some(s) => SortOrder::parse(s),
    }
}

/// The fingerprint of a download listing's filter: `{"status":…}` with the
/// state's name, or `null`.
pub open spec fn downloads_fingerprint_spec(status: Option<DownloadJobStatus>) -> Seq<char> {
    "{\"status\":"@ + match status {
        Some(s) => json_string_literal(status_text(s)),
        None => "null"@,
    } + "}"@
}

pub fn downloads_fingerprint(status: Option<DownloadJobStatus>) -> (r: String)
    ensures
        r@ == downloads_fingerprint_spec(status),
{
    let mut v = chars_of("{\"status\":");
    let value = match status {
        Some(s) => {
            let q = json_quote(s.as_str());
            chars_of(q.as_str())
        },
        None => chars_of("null"),
    };
    append_chars(&mut v, value.as_slice());
    let end = chars_of("}");
    append_chars(&mut v, end.as_slice());
    string_of(v.as_slice())
}

pub open spec fn direction_named(s: Seq<char>) -> Option<PriorityDirection> {
    if s == "up"@ {
        Some(PriorityDirection::Up)
    } else if s == "down"@ {
        Some(PriorityDirection::Down)
    } else {
        None
    }
}

/// The direction of a priority move: `up` or `down`.
pub fn parse_priority_direction(s: &str) -> (r: Result<PriorityDirection, ApiError>)
    ensures
        direction_named(s@) matches Some(d) ==> r == Ok::<PriorityDirection, ApiError>(d),
        direction_named(s@) is None ==> (r matches Err(e) && is_message(
            e,
            "direction must be up or down"@,
        )),
{
    if str_is(s, "up") {
        Ok(PriorityDirection::Up)
    } else if str_is(s, "down") {
        Ok(PriorityDirection::Down)
    } else {
        Err(ApiError::bad_request("direction must be up or down"))
    }
}

/// The error for a job id that names no job.
pub fn job_not_found(id: i64) -> (e: ApiError)
    ensures
        is_message(e, "job "@ + dec_int(id as int) + " not found"@),
{
    let mut v = chars_of("job ");
    let d = fmt_i64(id);
    append_chars(&mut v, d.as_slice());
    let tail = chars_of(" not found");
    append_chars(&mut v, tail.as_slice());
    ApiError::Message(string_of(v.as_slice()))
}

/// What deleting a job does: remove its row, or cancel it.
#[derive(Debug, Clone, Copy, PartialEq, Eq, Structural)]
pub enum DeleteAction {
    Purge,
    Cancel,
}

/// Deleting a job: with `purge`, only a finished job (`terminal`) loses its
/// row; without it, the job is cancelled unless it already completed or
/// failed.
pub open spec fn delete_action_spec(status: DownloadJobStatus, purge: bool, terminal: bool) -> Result<
    DeleteAction,
    Seq<char>,
> {
    if purge {
        if terminal {
            Ok(DeleteAction::Purge)
        } else {
            Err("cannot purge active job; cancel it first"@)
        }
    } else if status == DownloadJobStatus::Completed || status == DownloadJobStatus::Failed {
        Err("cannot cancel completed or failed job"@)
    } else {
        Ok(DeleteAction::Cancel)
    }
}

/// The decision of `delete_download` once the job is read; `terminal` is
/// whether the store counts its state as finished.
pub fn delete_action(status: DownloadJobStatus, purge: bool, terminal: bool) -> (r: Result<
    DeleteAction,
    ApiError,
>)
    ensures
        match delete_action_spec(status, purge, terminal) {
            Ok(a) => r == Ok::<DeleteAction, ApiError>(a),
            Err(m) => r matches Err(e) && is_message(e, m),
        },
{
    if purge {
        if terminal {
            Ok(DeleteAction::Purge)
        } else {
            Err(ApiError::bad_request("cannot purge active job; cancel it first"))
        }
    } else {
        match status {
            DownloadJobStatus::Completed | DownloadJobStatus::Failed => Err(
                ApiError::bad_request("cannot cancel completed or failed job"),
            ),
            _ => Ok(DeleteAction::Cancel),
        }
    }
}

/// The download speed shown for a job: the stored value, negative ones as 0.
pub fn download_speed(bps: i64) -> (r: u64)
    ensures
        r == (if bps < 0 {
            0
        } else {
            bps as int
        }),
{
    if bps < 0 {
        0
    } else {
        bps as u64
    }
}

/// Qobuz format ids a download may ask for.
pub open spec fn quality_supported(quality: u8) -> bool {
    quality == 5 || quality == 6 || quality == 7 || quality == 27
}

/// A download's quality must be one Qobuz serves.
pub fn check_download_quality(quality: u8) -> (r: Result<(), ApiError>)
    ensures
        quality_supported(quality) <==> r is Ok,
        !quality_supported(quality) ==> (r matches Err(e) && is_message(
            e,
            "unsupported quality (use 5, 6, 7, or 27)"@,
        )),
{
    if quality == 5 || quality == 6 || quality == 7 || quality == 27 {
        Ok(())
    } else {
        Err(ApiError::bad_request("unsupported quality (use 5, 6, 7, or 27)"))
    }
}

/// A download by URL needs a URL that is not blank, then a supported
/// quality.
pub fn check_download_by_url(url: &str, quality: u8) -> (r: Result<(), ApiError>)
    ensures
        trim(url@).len() == 0 ==> (r matches Err(e) && is_message(e, "url must not be empty"@)),
        trim(url@).len() > 0 ==> (quality_supported(quality) <==> r is Ok),
        trim(url@).len() > 0 && !quality_supported(quality) ==> (r matches Err(e) && is_message(
            e,
            "unsupported quality (use 5, 6, 7, or 27)"@,
        )),
{
    let t = trim_chars(chars_of(url).as_slice());
    if t.len() == 0 {
        return Err(ApiError::bad_request("url must not be empty"));
    }
    check_download_quality(quality)
}

/// Only album downloads are created through the API.
pub fn check_download_job_type(job_type: DownloadJobType) -> (r: Result<(), ApiError>)
    ensures
        job_type == DownloadJobType::Album <==> r is Ok,
        job_type != DownloadJobType::Album ==> (r matches Err(e) && is_message(
            e,
            "only job_type=album is supported"@,
        )),
{
    match job_type {
        DownloadJobType::Album => Ok(()),
        _ => Err(ApiError::bad_request("only job_type=album is supported")),
    }
}

} // verus!
