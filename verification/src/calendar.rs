//! Days of the calendar, counted and written out.
//!
//! Moments are seconds since the Unix epoch; a day is the stretch of 86 400
//! of them that begins at a midnight in UTC.

use vstd::prelude::*;
use crate::codec::is_date_label;

verus! {

/// The seconds of one day.
pub const SECONDS_PER_DAY: i64 = 86_400;

/// The number of the day that the moment `timestamp` falls on, the epoch's
/// own day being day zero.
pub open spec fn day_number(timestamp: int) -> int {
    timestamp / (SECONDS_PER_DAY as int)
}

/// Tells which day a moment falls on.
pub fn day_of(timestamp: i64) -> (day: i64)
    ensures
        day == day_number(timestamp as int),
        day * SECONDS_PER_DAY <= timestamp < (day + 1) * SECONDS_PER_DAY,
{
    if timestamp >= 0 {
        timestamp / SECONDS_PER_DAY
    } else {
        let behind: i64 = -1 - timestamp;
        -1 - behind / SECONDS_PER_DAY
    }
}

/// How the calendar day in UTC of the moment `timestamp` is written, as the
/// `time` crate writes it; nothing where that crate has no date for it.
pub uninterp spec fn utc_date_text(timestamp: i64) -> Option<Seq<char>>;

/// `time::OffsetDateTime::from_unix_timestamp`, the `date` of what it gives,
/// and that date's `to_string`. The text depends on the moment alone and has
/// the shape of a written day: a year of four digits or more, which may
/// bear a sign, then `-`, two digits, `-` and two digits. A moment outside
/// the years that the crate knows gives nothing.
#[verifier::external_body]
pub(crate) fn utc_date_label(timestamp: i64) -> (r: Option<String>)
    ensures
        r is Some <==> utc_date_text(timestamp) is Some,
        r matches Some(label) ==> utc_date_text(timestamp) == Some(label@) && is_date_label(label@),
{
    match time::OffsetDateTime::from_unix_timestamp(timestamp) {
        Ok(moment) => Some(moment.date().to_string()),
        Err(_) => None,
    }
}

} // verus!
