//! The hour of the day of a Unix timestamp in local time, and the time by
//! the clock, as `chrono` gives them.

use chrono::{DateTime, Local, Timelike};
use vstd::prelude::*;

verus! {

/// The first second that `chrono` has a calendar date for: the start of
/// the year -262143.
pub const MIN_TIMESTAMP: i64 = -8_334_601_228_800;

/// The last second that `chrono` has a calendar date for: the end of the
/// year 262142.
pub const MAX_TIMESTAMP: i64 = 8_210_266_876_799;

/// Whether `chrono` has a calendar date for the instant `secs` seconds
/// after the start of 1970.
pub open spec fn has_calendar_date(secs: int) -> bool {
    MIN_TIMESTAMP <= secs <= MAX_TIMESTAMP
}

/// `chrono::DateTime::from_timestamp(secs, 0)` and, of the date and time it
/// gives, `chrono::DateTime::with_timezone(&Local)` and then
/// `chrono::Timelike::hour`: the hour of the day at the instant `secs`
/// seconds after the start of 1970, by the machine's time zone. Believed of
/// them: an instant has a date exactly between [`MIN_TIMESTAMP`] and
/// [`MAX_TIMESTAMP`], and an hour of the day is below 24. Which hour it is
/// the time zone decides; nothing is claimed of that.
#[verifier::external_body]
fn local_hour(secs: i64) -> (hour: Option<u32>)
    ensures
        hour is Some <==> has_calendar_date(secs as int),
        hour matches Some(h) ==> h < 24,
{
    match DateTime::from_timestamp(secs, 0) {
        Some(at) => Some(at.with_timezone(&Local).hour()),
        None => None,
    }
}

/// The hour of the day, in local time, under which activity at the instant
/// `secs` is counted: the hour of that instant, and for an instant without
/// a calendar date the hour of the start of 1970.
pub fn hour_bucket(secs: i64) -> (hour: u32)
    ensures
        hour < 24,
{
    match local_hour(secs) {
        Some(hour) => hour,
        None => match local_hour(0) {
            Some(hour) => hour,
            None => 0,
        },
    }
}

/// `chrono::Local::now()` and of it `chrono::DateTime::timestamp`: the
/// seconds since the start of 1970 by the machine's clock. Nothing is
/// claimed of the number.
#[verifier::external_body]
pub(crate) fn now_timestamp() -> i64 {
    Local::now().timestamp()
}

} // verus!
