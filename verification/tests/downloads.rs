use euterpe_server::api::downloads::{DownloadJobStatus, DownloadJobType};
use euterpe_server::api::keyset::{encode_cursor, SortKeyValue, SortOrder};
use euterpe_server::db::download_jobs::{list_job_page, DownloadsSort, JobKey, PriorityDirection};
use euterpe_server::routes::downloads::{
    check_download_by_url, check_download_job_type, check_download_quality, default_download_limit,
    default_download_sort, delete_action, download_speed, downloads_fingerprint, downloads_order,
    job_not_found, parse_priority_direction, purge_requested, DeleteAction, DeleteDownloadQuery,
};

fn job(id: i64, status: &str, created_at: &str, queue_position: i64) -> JobKey {
    JobKey {
        id,
        status: status.to_string(),
        created_at: created_at.to_string(),
        queue_position,
    }
}

fn ids(rows: &[JobKey]) -> Vec<i64> {
    rows.iter().map(|r| r.id).collect()
}

#[test]
fn job_status_names_round_trip() {
    for s in [
        DownloadJobStatus::Queued,
        DownloadJobStatus::Running,
        DownloadJobStatus::Paused,
        DownloadJobStatus::Completed,
        DownloadJobStatus::Failed,
        DownloadJobStatus::Cancelled,
    ] {
        assert_eq!(DownloadJobStatus::parse(s.as_str()), Some(s));
    }
    assert_eq!(DownloadJobStatus::parse("done"), None);
    assert_eq!(DownloadJobType::Torrent.as_str(), "torrent");
    assert_eq!(DownloadJobType::Playlist.as_str(), "playlist");
}

#[test]
fn downloads_sort_parses() {
    assert_eq!(DownloadsSort::parse("queue_position").unwrap(), DownloadsSort::QueuePosition);
    assert_eq!(DownloadsSort::CreatedAt.as_str(), "created_at");
    assert_eq!(
        DownloadsSort::parse("name").unwrap_err().message(),
        "sort must be id, created_at, status, or queue_position"
    );
}

fn sample() -> Vec<JobKey> {
    vec![
        job(1, "queued", "2024-01-03", 5),
        job(2, "running", "2024-01-01", 1),
        job(3, "queued", "2024-01-02", 3),
        job(4, "failed", "2024-01-02", 2),
        job(5, "queued", "2024-01-01", 4),
    ]
}

#[test]
fn listing_sorts_with_id_tie_breaker() {
    let page = list_job_page(
        sample(),
        DownloadsSort::CreatedAt,
        SortOrder::Asc,
        None,
        None,
        10,
        "fp",
    );
    assert_eq!(ids(&page.items), vec![2, 5, 3, 4, 1]);
    assert!(!page.has_more);
    assert!(page.next_cursor.is_none());
    let page = list_job_page(
        sample(),
        DownloadsSort::CreatedAt,
        SortOrder::Desc,
        None,
        None,
        10,
        "fp",
    );
    assert_eq!(ids(&page.items), vec![1, 3, 4, 2, 5]);
}

#[test]
fn listing_filters_by_status_and_pages() {
    let page = list_job_page(
        sample(),
        DownloadsSort::QueuePosition,
        SortOrder::Asc,
        Some(DownloadJobStatus::Queued),
        None,
        2,
        "fp",
    );
    assert_eq!(ids(&page.items), vec![3, 5]);
    assert!(page.has_more);
    assert_eq!(
        page.next_cursor.unwrap(),
        encode_cursor("queue_position", SortOrder::Asc, "fp", &SortKeyValue::Int(4), 5)
    );
    let next = list_job_page(
        sample(),
        DownloadsSort::QueuePosition,
        SortOrder::Asc,
        Some(DownloadJobStatus::Queued),
        Some((SortKeyValue::Int(4), 5)),
        2,
        "fp",
    );
    assert_eq!(ids(&next.items), vec![1]);
    assert!(!next.has_more);
}

#[test]
fn pages_continue_after_equal_keys_by_id() {
    let after = Some((SortKeyValue::Text("2024-01-02".into()), 3));
    let page = list_job_page(
        sample(),
        DownloadsSort::CreatedAt,
        SortOrder::Asc,
        None,
        after,
        10,
        "fp",
    );
    assert_eq!(ids(&page.items), vec![4, 1]);
}

#[test]
fn download_quality_must_be_served() {
    for q in [5u8, 6, 7, 27] {
        assert!(check_download_quality(q).is_ok());
    }
    assert_eq!(
        check_download_quality(8).unwrap_err().message(),
        "unsupported quality (use 5, 6, 7, or 27)"
    );
}

#[test]
fn download_by_url_checks_url_then_quality() {
    assert_eq!(check_download_by_url("   ", 5).unwrap_err().message(), "url must not be empty");
    assert!(check_download_by_url("https://open.qobuz.com/album/abc", 27).is_ok());
    assert!(check_download_by_url("https://open.qobuz.com/album/abc", 1).is_err());
}

#[test]
fn only_album_downloads_are_created() {
    assert!(check_download_job_type(DownloadJobType::Album).is_ok());
    assert_eq!(
        check_download_job_type(DownloadJobType::Track).unwrap_err().message(),
        "only job_type=album is supported"
    );
}

#[test]
fn download_listing_defaults() {
    assert_eq!(default_download_limit(), 100);
    assert_eq!(default_download_sort(), "queue_position");
    assert_eq!(downloads_order(DownloadsSort::QueuePosition, None).unwrap(), SortOrder::Asc);
    assert_eq!(downloads_order(DownloadsSort::CreatedAt, None).unwrap(), SortOrder::Desc);
    assert_eq!(downloads_order(DownloadsSort::Id, Some("asc")).unwrap(), SortOrder::Asc);
    assert_eq!(
        downloads_order(DownloadsSort::Id, Some("up")).unwrap_err().message(),
        "order must be asc or desc"
    );
}

#[test]
fn downloads_fingerprint_names_status() {
    assert_eq!(downloads_fingerprint(None), "{\"status\":null}");
    assert_eq!(downloads_fingerprint(Some(DownloadJobStatus::Queued)), "{\"status\":\"queued\"}");
}

#[test]
fn purge_flag_accepts_one_or_true() {
    let q = |s: Option<&str>| DeleteDownloadQuery { purge: s.map(Into::into) };
    assert!(purge_requested(&q(Some("1"))));
    assert!(purge_requested(&q(Some("TRUE"))));
    assert!(!purge_requested(&q(Some("yes"))));
    assert!(!purge_requested(&q(None)));
}

#[test]
fn delete_decision_by_state() {
    assert_eq!(delete_action(DownloadJobStatus::Completed, true, true).unwrap(), DeleteAction::Purge);
    assert_eq!(
        delete_action(DownloadJobStatus::Running, true, false).unwrap_err().message(),
        "cannot purge active job; cancel it first"
    );
    assert_eq!(
        delete_action(DownloadJobStatus::Failed, false, true).unwrap_err().message(),
        "cannot cancel completed or failed job"
    );
    assert_eq!(delete_action(DownloadJobStatus::Queued, false, false).unwrap(), DeleteAction::Cancel);
}

#[test]
fn priority_direction_and_errors() {
    assert_eq!(parse_priority_direction("up").unwrap(), PriorityDirection::Up);
    assert_eq!(parse_priority_direction("down").unwrap(), PriorityDirection::Down);
    assert_eq!(
        parse_priority_direction("sideways").unwrap_err().message(),
        "direction must be up or down"
    );
    assert_eq!(job_not_found(42).message(), "job 42 not found");
    assert_eq!(job_not_found(42).status(), 404);
}

#[test]
fn download_speed_clamps_negative() {
    assert_eq!(download_speed(-5), 0);
    assert_eq!(download_speed(1500), 1500);
}
