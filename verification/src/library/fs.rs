//! File modification times as the library shows them.

use vstd::prelude::*;

verus! {

/// The text `chrono` formats a UTC time as with `%Y-%m-%d %H:%M:%S`, for a
/// time given as whole seconds and nanoseconds since the Unix epoch.
pub uninterp spec fn utc_ymd_hms_text(secs: i64, nanos: u32) -> Seq<char>;

/// `chrono::DateTime::<Utc>::from_timestamp` formatted with
/// `%Y-%m-%d %H:%M:%S`; `None` where chrono refuses the time as out of its
/// range. The text is named, not stated. Its source accepts every time
/// whose date falls in the years -262143 to 262142 with nanoseconds below
/// one second; the contract promises success on the smaller span of
/// 8 * 10^12 seconds either side of the epoch, which lies inside it.
#[verifier::external_body]
fn format_utc_timestamp(secs: i64, nanos: u32) -> (r: Option<String>)
    ensures
        r matches Some(s) ==> s@ == utc_ymd_hms_text(secs, nanos),
        (-MTIME_SPAN_SECS <= secs <= MTIME_SPAN_SECS && nanos < 1_000_000_000) ==> r is Some,
{
    chrono::DateTime::from_timestamp(secs, nanos).map(|dt| dt.format("%Y-%m-%d %H:%M:%S").to_string())
}

/// The span of seconds either side of the Unix epoch within which a
/// modification time is always formatted.
pub const MTIME_SPAN_SECS: i64 = 8_000_000_000_000;

/// A time as whole seconds and nanoseconds since the Unix epoch, from its
/// distance to the epoch: a time before the epoch with a fraction of a
/// second moves to the second below.
pub open spec fn epoch_parts(before_epoch: bool, secs: int, nanos: int) -> (int, int) {
    if !before_epoch {
        (secs, nanos)
    } else if nanos == 0 {
        (-secs, 0)
    } else {
        (-secs - 1, 1_000_000_000 - nanos)
    }
}

pub fn epoch_timestamp(before_epoch: bool, secs: u64, nanos: u32) -> (r: (i64, u32))
    requires
        secs <= i64::MAX,
        nanos < 1_000_000_000,
    ensures
        r.0 == epoch_parts(before_epoch, secs as int, nanos as int).0,
        r.1 == epoch_parts(before_epoch, secs as int, nanos as int).1,
{
    let s = secs as i64;
    if !before_epoch {
        (s, nanos)
    } else if nanos == 0 {
        (-s, 0)
    } else {
        (-s - 1, 1_000_000_000 - nanos)
    }
}

/// The modification time of a file as the library shows it, from the
/// file's distance to the Unix epoch; `None` where the time is out of the
/// formatter's range, which a time less than `MTIME_SPAN_SECS` seconds
/// from the epoch never is.
pub fn format_mtime(before_epoch: bool, secs: u64, nanos: u32) -> (r: Option<String>)
    requires
        secs <= i64::MAX,
        nanos < 1_000_000_000,
    ensures
        r matches Some(s) ==> s@ == utc_ymd_hms_text(
            epoch_parts(before_epoch, secs as int, nanos as int).0 as i64,
            epoch_parts(before_epoch, secs as int, nanos as int).1 as u32,
        ),
        secs < MTIME_SPAN_SECS ==> r is Some,
{
    let (s, n) = epoch_timestamp(before_epoch, secs, nanos);
    format_utc_timestamp(s, n)
}

} // verus!
