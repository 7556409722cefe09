//! The wall clock and the two renderings of an instant, all taken from
//! `chrono`.

use crate::model::{representable, Timestamp};
use vstd::prelude::*;

verus! {

/// The text that `chrono` shows a UTC instant as, such as
/// `2024-01-01 12:00:00 UTC`, for the instant given by its seconds since the
/// Unix epoch and its nanoseconds.
pub uninterp spec fn utc_display(secs: int, nanos: int) -> Seq<char>;

/// The RFC 3339 text that `chrono` writes for a UTC instant, such as
/// `2024-01-01T12:00:00+00:00`, for the instant given by its seconds since the
/// Unix epoch and its nanoseconds.
pub uninterp spec fn utc_rfc3339(secs: int, nanos: int) -> Seq<char>;

/// Reads the clock with `chrono::Utc::now` and hands back the seconds since
/// the Unix epoch and the nanoseconds within the second. Nothing is claimed
/// of the reading but that it is an instant that `chrono::DateTime` can hold.
#[verifier::external_body]
fn read_clock() -> (res: (i64, u32))
    ensures
        representable(res.0 as int, res.1 as int),
{
    let now = chrono::Utc::now();
    (now.timestamp(), now.timestamp_subsec_nanos())
}

/// Calls `chrono::DateTime::<Utc>::to_string` on the instant that
/// `DateTime::from_timestamp` makes of the seconds and nanoseconds; it writes
/// the date, the time and `UTC`. The result is named, not described.
#[verifier::external_body]
fn show_display(secs: i64, nanos: u32) -> (res: String)
    requires
        representable(secs as int, nanos as int),
    ensures
        res@ == utc_display(secs as int, nanos as int),
{
    match chrono::DateTime::from_timestamp(secs, nanos) {
        Some(instant) => instant.to_string(),
        None => String::new(),
    }
}

/// Calls `chrono::DateTime::<Utc>::to_rfc3339` on the instant that
/// `DateTime::from_timestamp` makes of the seconds and nanoseconds. The
/// result is named, not described.
#[verifier::external_body]
fn show_rfc3339(secs: i64, nanos: u32) -> (res: String)
    requires
        representable(secs as int, nanos as int),
    ensures
        res@ == utc_rfc3339(secs as int, nanos as int),
{
    match chrono::DateTime::from_timestamp(secs, nanos) {
        Some(instant) => instant.to_rfc3339(),
        None => String::new(),
    }
}

/// The present instant: the reading of the clock, which is an instant of the
/// supported calendar. Which instant it is depends on when the call is made.
pub fn now() -> (res: Timestamp)
    ensures
        representable(res@.0, res@.1),
{
    let reading = read_clock();
    match Timestamp::new(reading.0, reading.1) {
        Some(at) => at,
        None => vstd::pervasive::unreached(),
    }
}

/// The instant as a date, a time and the word `UTC`.
pub fn display(at: &Timestamp) -> (res: String)
    ensures
        res@ == utc_display(at@.0, at@.1),
{
    show_display(at.secs(), at.nanos())
}

/// The instant in RFC 3339 form.
pub fn rfc3339(at: &Timestamp) -> (res: String)
    ensures
        res@ == utc_rfc3339(at@.0, at@.1),
{
    show_rfc3339(at.secs(), at.nanos())
}

} // verus!
