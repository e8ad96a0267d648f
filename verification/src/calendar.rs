//! Time on the UTC timeline, counted in milliseconds since the Unix epoch.
//!
//! Weekdays, hours and offsets within the hour are plain arithmetic on that
//! count. The calendar date of an instant is asked of `chrono`.

use chrono::{DateTime, Datelike, Utc};
use vstd::prelude::*;

verus! {

/// Milliseconds in a second.
pub const MILLIS_PER_SECOND: i64 = 1_000;

/// Milliseconds in a minute.
pub const MILLIS_PER_MINUTE: i64 = 60_000;

/// Milliseconds in an hour.
pub const MILLIS_PER_HOUR: i64 = 3_600_000;

/// Milliseconds in a day. Days have no leap seconds on this timeline.
pub const MILLIS_PER_DAY: i64 = 86_400_000;

/// The hour of the day whose archive holds a day's closing tick.
pub const CLOSING_HOUR: i64 = 23;

/// Days from Monday to Friday.
pub const FRIDAY: u32 = 4;

/// Days from Monday to Saturday.
pub const SATURDAY: u32 = 5;

/// The number of the UTC day that holds the instant; day 0 is 1970-01-01.
pub open spec fn day_number(millis: int) -> int {
    millis / 86_400_000
}

/// The weekday of the instant, counted in days from Monday. Day 0 of the
/// epoch was a Thursday.
pub open spec fn days_from_monday(millis: int) -> int {
    (day_number(millis) + 3) % 7
}

/// The instant falls on a Saturday or a Sunday.
pub open spec fn is_weekend(millis: int) -> bool {
    days_from_monday(millis) >= 5
}

/// The hour of the day that holds the instant, 0 to 23.
pub open spec fn hour_of_day(millis: int) -> int {
    millis % 86_400_000 / 3_600_000
}

/// The minute of the hour that holds the instant, 0 to 59.
pub open spec fn minute_of_hour(millis: int) -> int {
    millis % 3_600_000 / 60_000
}

/// The second of the minute that holds the instant, 0 to 59.
pub open spec fn second_of_minute(millis: int) -> int {
    millis % 60_000 / 1_000
}

/// The top of the hour that holds the instant.
pub open spec fn hour_start(millis: int) -> int {
    millis - millis % 3_600_000
}

/// Where in its hour a request aims: the minute and the second of the instant
/// in milliseconds, with what is below a second left out.
pub open spec fn target_offset(millis: int) -> int {
    minute_of_hour(millis) * 60_000 + second_of_minute(millis) * 1_000
}

/// The top of the last hour, 23:00, of the day with the given number.
pub open spec fn closing_hour_of_day(day: int) -> int {
    day * 86_400_000 + 23 * 3_600_000
}

/// The day whose close answers an instant on a weekend: the Friday before it.
pub open spec fn preceding_friday(millis: int) -> int {
    day_number(millis) - (days_from_monday(millis) - 4)
}

/// The top of the hour whose archive answers a request for the instant: the
/// hour of the instant itself, and for a weekend the last hour of the Friday
/// before it.
pub open spec fn archive_hour(millis: int) -> int {
    if is_weekend(millis) {
        closing_hour_of_day(preceding_friday(millis))
    } else {
        hour_start(millis)
    }
}

/// The weekend falls back on the Friday just before it: one day back from a
/// Saturday and two from a Sunday, at 23:00.
pub proof fn lemma_weekend_answers_with_preceding_friday(millis: int)
    requires
        is_weekend(millis),
    ensures
        days_from_monday(archive_hour(millis)) == 4,
        hour_of_day(archive_hour(millis)) == 23,
        hour_start(archive_hour(millis)) == archive_hour(millis),
        days_from_monday(millis) == 5 ==> day_number(archive_hour(millis)) == day_number(millis) - 1,
        days_from_monday(millis) == 6 ==> day_number(archive_hour(millis)) == day_number(millis) - 2,
        archive_hour(millis) < millis,
{
}

/// On a weekday the archive is that of the instant's own hour, and the target
/// lies within that hour.
pub proof fn lemma_weekday_answers_with_own_hour(millis: int)
    requires
        !is_weekend(millis),
    ensures
        archive_hour(millis) <= millis < archive_hour(millis) + 3_600_000,
        archive_hour(millis) % 3_600_000 == 0,
        day_number(archive_hour(millis)) == day_number(millis),
        hour_of_day(archive_hour(millis)) == hour_of_day(millis),
        0 <= target_offset(millis) <= 3_599_000,
        archive_hour(millis) + target_offset(millis) <= millis < archive_hour(millis)
            + target_offset(millis) + 1_000,
{
}

/// The weekday of the instant in days from Monday: 0 for Monday, 6 for Sunday.
pub fn weekday_from_monday(millis: i64) -> (days: u32)
    ensures
        days == days_from_monday(millis as int),
        days <= 6,
{
    let day = match millis.checked_div_euclid(MILLIS_PER_DAY) {
        Some(day) => day,
        None => 0,
    };
    match (day + 3).checked_rem_euclid(7) {
        Some(days) => days as u32,
        None => 0,
    }
}

/// The hour of the day that holds the instant.
pub fn utc_hour(millis: i64) -> (hour: u32)
    ensures
        hour == hour_of_day(millis as int),
        hour <= 23,
{
    match millis.checked_rem_euclid(MILLIS_PER_DAY) {
        Some(in_day) => (in_day / MILLIS_PER_HOUR) as u32,
        None => 0,
    }
}

/// The offset within the hour that a request for the instant aims at.
pub fn target_ms(millis: i64) -> (target: u32)
    ensures
        target == target_offset(millis as int),
        target <= 3_599_000,
{
    let in_hour = match millis.checked_rem_euclid(MILLIS_PER_HOUR) {
        Some(in_hour) => in_hour,
        None => 0,
    };
    let in_minute = match millis.checked_rem_euclid(MILLIS_PER_MINUTE) {
        Some(in_minute) => in_minute,
        None => 0,
    };
    let minute = in_hour / MILLIS_PER_MINUTE;
    let second = in_minute / MILLIS_PER_SECOND;
    (minute * MILLIS_PER_MINUTE + second * MILLIS_PER_SECOND) as u32
}

/// An instant that an `i64` can hold.
pub open spec fn representable(millis: int) -> bool {
    i64::MIN <= millis <= i64::MAX
}

/// The top of the last hour of the day that holds the instant, or `None` where
/// that lies outside the range of `i64`.
pub fn closing_hour(millis: i64) -> (hour: Option<i64>)
    ensures
        match hour {
            Some(start) => start == closing_hour_of_day(day_number(millis as int)),
            None => !representable(closing_hour_of_day(day_number(millis as int))),
        },
{
    let day = match millis.checked_div_euclid(MILLIS_PER_DAY) {
        Some(day) => day,
        None => 0,
    };
    let start: i128 = day as i128 * MILLIS_PER_DAY as i128 + CLOSING_HOUR as i128
        * MILLIS_PER_HOUR as i128;
    if start < i64::MIN as i128 || start > i64::MAX as i128 {
        None
    } else {
        Some(start as i64)
    }
}

/// The top of the hour whose archive answers a request for the instant, or
/// `None` where that lies outside the range of `i64`.
pub fn archive_hour_start(millis: i64) -> (hour: Option<i64>)
    ensures
        match hour {
            Some(start) => start == archive_hour(millis as int),
            None => !representable(archive_hour(millis as int)),
        },
{
    let weekday = weekday_from_monday(millis);
    if weekday >= SATURDAY {
        let back = (weekday - FRIDAY) as i64 * MILLIS_PER_DAY;
        match millis.checked_sub(back) {
            Some(friday) => closing_hour(friday),
            None => None,
        }
    } else {
        let in_hour = match millis.checked_rem_euclid(MILLIS_PER_HOUR) {
            Some(in_hour) => in_hour,
            None => 0,
        };
        millis.checked_sub(in_hour)
    }
}

/// The UTC calendar date (year, month, day of month) of the instant `millis`
/// milliseconds after the Unix epoch, as `chrono` reckons it, or `None` for
/// an instant that `chrono::DateTime<Utc>` cannot hold.
pub uninterp spec fn utc_date(millis: i64) -> Option<(i32, u32, u32)>;

/// `chrono::DateTime::<Utc>::from_timestamp_millis`, read with `Datelike::year`,
/// `Datelike::month` and `Datelike::day`. The result is the named date; the
/// month lies in 1 to 12 and the day in 1 to 31, as the accessors document.
#[verifier::external_body]
pub(crate) fn calendar_date(millis: i64) -> (date: Option<(i32, u32, u32)>)
    ensures
        date == utc_date(millis),
        date matches Some((_, month, day)) ==> 1 <= month <= 12 && 1 <= day <= 31,
{
    match DateTime::<Utc>::from_timestamp_millis(millis) {
        Some(instant) => Some((instant.year(), instant.month(), instant.day())),
        None => None,
    }
}

} // verus!
