//! Local-time rendering of the sunrise and sunset instants. The
//! machine's UTC offset and the calendar arithmetic come from the
//! `chrono` crate behind two trusted wrappers; the rendered text for a
//! given instant and offset is a pure function of the two, which the
//! contracts name.

use vstd::prelude::*;
use crate::weather::EPOCH_LIMIT;

verus! {

/// The text `chrono` renders for the instant `epoch` (seconds since
/// 1970-01-01T00:00:00Z) shifted by `offset` seconds from UTC: an ISO
/// 8601 date-time followed by the offset, e.g.
/// `1970-01-01T01:00:00+01:00`. A pure function of its two arguments.
pub uninterp spec fn local_datetime_str(epoch: int, offset: int) -> Seq<char>;

/// Relies on `chrono`: `DateTime::from_timestamp` is `Some` for any
/// instant far below its +262142-year ceiling, `FixedOffset::east_opt`
/// is `Some` for offsets strictly within one day, and the `Debug`
/// rendering of the resulting `DateTime<FixedOffset>` depends on the
/// instant and the offset alone.
#[verifier::external_body]
pub fn format_local_datetime(epoch: u64, offset: i32) -> (r: String)
    requires
        epoch < EPOCH_LIMIT,
        -86_400 < offset < 86_400,
    ensures
        r@ == local_datetime_str(epoch as int, offset as int),
{
    let utc = chrono::DateTime::from_timestamp(epoch as i64, 0).unwrap();
    let zone = chrono::FixedOffset::east_opt(offset).unwrap();
    format!("{:?}", utc.with_timezone(&zone))
}

/// Relies on `chrono`: `Local::now().offset()` is a `FixedOffset`,
/// whose seconds-east value is by construction strictly within one
/// day.
#[verifier::external_body]
pub fn local_offset_seconds() -> (r: i32)
    ensures
        -86_400 < r < 86_400,
{
    chrono::Local::now().offset().local_minus_utc()
}

} // verus!
