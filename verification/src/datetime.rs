//! The trusted boundary to chrono: the timestamp type itself is opaque
//! here. Each calendar field of a timestamp is a function of that timestamp
//! alone, so each gets a name, and each wrapper reads one field, promising
//! that it returns the named value and the range that chrono documents.

use chrono::{Datelike, Timelike};

use vstd::prelude::*;

verus! {

#[verifier::external_type_specification]
#[verifier::external_body]
pub struct ExNaiveDateTime(chrono::NaiveDateTime);

/// The hour of the day that `dt` carries.
pub uninterp spec fn hour_of(dt: chrono::NaiveDateTime) -> u8;

/// The minute of the hour that `dt` carries.
pub uninterp spec fn minute_of(dt: chrono::NaiveDateTime) -> u8;

/// The day of the month that `dt` carries.
pub uninterp spec fn day_of(dt: chrono::NaiveDateTime) -> u8;

/// The month number that `dt` carries.
pub uninterp spec fn month_of(dt: chrono::NaiveDateTime) -> u8;

/// The Sunday-based weekday number of the date that `dt` carries.
pub uninterp spec fn weekday_of(dt: chrono::NaiveDateTime) -> u8;

/// Relies on chrono's `Timelike::hour`: "Returns the hour number from 0 to
/// 23." The result depends on the timestamp alone.
#[verifier::external_body]
pub(crate) fn extract_hour(dt: &chrono::NaiveDateTime) -> (r: u8)
    ensures
        r == hour_of(*dt),
        r <= 23,
{
    dt.hour() as u8
}

/// Relies on chrono's `Timelike::minute`: "Returns the minute number from 0
/// to 59." The result depends on the timestamp alone.
#[verifier::external_body]
pub(crate) fn extract_minute(dt: &chrono::NaiveDateTime) -> (r: u8)
    ensures
        r == minute_of(*dt),
        r <= 59,
{
    dt.minute() as u8
}

/// Relies on chrono's `Datelike::day`: "Returns the day of month starting
/// from 1. The return value ranges from 1 to 31." The result depends on the
/// timestamp alone.
#[verifier::external_body]
pub(crate) fn extract_day(dt: &chrono::NaiveDateTime) -> (r: u8)
    ensures
        r == day_of(*dt),
        1 <= r <= 31,
{
    dt.day() as u8
}

/// Relies on chrono's `Datelike::month`: "Returns the month number starting
/// from 1. The return value ranges from 1 to 12." The result depends on the
/// timestamp alone.
#[verifier::external_body]
pub(crate) fn extract_month(dt: &chrono::NaiveDateTime) -> (r: u8)
    ensures
        r == month_of(*dt),
        1 <= r <= 12,
{
    dt.month() as u8
}

/// Relies on chrono's `Datelike::weekday` together with
/// `Weekday::num_days_from_sunday`: "Returns a day-of-week number starting
/// from Sunday = 0", so the result is 0 to 6. The result depends on the
/// timestamp alone.
#[verifier::external_body]
pub(crate) fn extract_weekday(dt: &chrono::NaiveDateTime) -> (r: u8)
    ensures
        r == weekday_of(*dt),
        r <= 6,
{
    dt.weekday().num_days_from_sunday() as u8
}

} // verus!
