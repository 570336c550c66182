use euterpe_server::library::fs::{epoch_timestamp, format_mtime};

#[test]
fn mtime_formats_utc_seconds() {
    assert_eq!(format_mtime(false, 1431648000, 0).as_deref(), Some("2015-05-15 00:00:00"));
    assert_eq!(format_mtime(false, 1431648000, 999_999_999).as_deref(), Some("2015-05-15 00:00:00"));
    assert_eq!(format_mtime(false, 0, 0).as_deref(), Some("1970-01-01 00:00:00"));
}

#[test]
fn mtime_before_epoch_rounds_down() {
    assert_eq!(epoch_timestamp(true, 1, 500), (-2, 999_999_500));
    assert_eq!(epoch_timestamp(true, 5, 0), (-5, 0));
    assert_eq!(format_mtime(true, 1, 1).as_deref(), Some("1969-12-31 23:59:58"));
}

#[test]
fn mtime_out_of_range_is_none() {
    assert_eq!(format_mtime(false, i64::MAX as u64, 0), None);
}

#[test]
fn mtime_far_from_epoch_is_formatted() {
    assert!(format_mtime(false, 7_999_999_999_999, 0).is_some());
    assert!(format_mtime(true, 7_999_999_999_999, 999_999_999).is_some());
}
