use chrono::{Datelike, TimeZone, Timelike, Utc};
use dukascopy_fx::calendar::{
    archive_hour_start, closing_hour, target_ms, utc_hour, weekday_from_monday,
    MILLIS_PER_DAY, MILLIS_PER_HOUR,
};

fn millis(year: i32, month: u32, day: u32, hour: u32, minute: u32, second: u32) -> i64 {
    Utc.with_ymd_and_hms(year, month, day, hour, minute, second).unwrap().timestamp_millis()
}

#[test]
fn weekday_counts_from_monday() {
    assert_eq!(weekday_from_monday(0), 3); // 1970-01-01, a Thursday
    assert_eq!(weekday_from_monday(millis(2024, 12, 30, 0, 0, 0)), 0);
    assert_eq!(weekday_from_monday(millis(2024, 12, 31, 12, 0, 0)), 1);
    assert_eq!(weekday_from_monday(millis(2025, 1, 1, 23, 59, 59)), 2);
    assert_eq!(weekday_from_monday(millis(2025, 1, 2, 0, 0, 0)), 3);
    assert_eq!(weekday_from_monday(millis(2025, 1, 3, 14, 45, 0)), 4);
    assert_eq!(weekday_from_monday(millis(2025, 1, 4, 10, 0, 0)), 5);
    assert_eq!(weekday_from_monday(millis(2025, 1, 5, 10, 0, 0)), 6);
}

#[test]
fn weekday_before_the_epoch() {
    assert_eq!(weekday_from_monday(-1), 2); // 1969-12-31, a Wednesday
    assert_eq!(weekday_from_monday(-MILLIS_PER_DAY), 2);
    assert_eq!(weekday_from_monday(-MILLIS_PER_DAY - 1), 1);
    assert_eq!(weekday_from_monday(millis(1900, 1, 1, 0, 0, 0)), 0);
}

#[test]
fn weekday_agrees_with_the_calendar_library() {
    let mut instant = millis(1969, 12, 1, 5, 0, 0);
    for _ in 0..800 {
        let expected = Utc.timestamp_millis_opt(instant).unwrap().weekday().num_days_from_monday();
        assert_eq!(weekday_from_monday(instant), expected);
        instant += MILLIS_PER_DAY + 7 * MILLIS_PER_HOUR;
    }
}

#[test]
fn hour_and_target_follow_the_clock() {
    let instant = millis(2025, 1, 3, 14, 45, 0);
    assert_eq!(utc_hour(instant), 14);
    assert_eq!(target_ms(instant), 2_700_000);
    let instant = millis(2025, 2, 5, 14, 30, 7) + 999;
    assert_eq!(utc_hour(instant), 14);
    assert_eq!(target_ms(instant), 30 * 60_000 + 7_000);
    let instant = millis(2025, 2, 5, 0, 59, 59);
    assert_eq!(utc_hour(instant), 0);
    assert_eq!(target_ms(instant), 3_599_000);
    assert_eq!(target_ms(millis(2025, 2, 5, 23, 0, 0)), 0);
}

#[test]
fn hour_and_target_before_the_epoch() {
    // 1969-12-31T23:59:59.000Z
    assert_eq!(utc_hour(-1_000), 23);
    assert_eq!(target_ms(-1_000), 3_599_000);
    // 1969-12-31T23:59:58.999Z
    assert_eq!(target_ms(-1_001), 3_598_000);
}

#[test]
fn clock_agrees_with_the_calendar_library() {
    let mut instant = millis(1999, 12, 31, 22, 58, 57);
    for _ in 0..500 {
        let expected = Utc.timestamp_millis_opt(instant).unwrap();
        assert_eq!(utc_hour(instant), expected.hour());
        assert_eq!(target_ms(instant), expected.minute() * 60_000 + expected.second() * 1_000);
        instant += 3_723_456;
    }
}

#[test]
fn weekday_archive_is_the_hour_of_the_instant() {
    assert_eq!(
        archive_hour_start(millis(2025, 1, 3, 14, 45, 0)),
        Some(millis(2025, 1, 3, 14, 0, 0))
    );
    assert_eq!(
        archive_hour_start(millis(2025, 1, 3, 23, 59, 59) + 999),
        Some(millis(2025, 1, 3, 23, 0, 0))
    );
    assert_eq!(
        archive_hour_start(millis(2024, 12, 30, 0, 0, 0)),
        Some(millis(2024, 12, 30, 0, 0, 0))
    );
}

#[test]
fn saturday_falls_back_on_the_friday_before() {
    for (hour, minute) in [(0, 0), (10, 0), (23, 59)] {
        assert_eq!(
            archive_hour_start(millis(2025, 1, 4, hour, minute, 0)),
            Some(millis(2025, 1, 3, 23, 0, 0))
        );
    }
}

#[test]
fn sunday_falls_back_on_the_friday_before() {
    for (hour, minute) in [(0, 0), (10, 0), (23, 59)] {
        assert_eq!(
            archive_hour_start(millis(2025, 1, 5, hour, minute, 0)),
            Some(millis(2025, 1, 3, 23, 0, 0))
        );
    }
    // Across a month and a year.
    assert_eq!(
        archive_hour_start(millis(2023, 1, 1, 12, 0, 0)),
        Some(millis(2022, 12, 30, 23, 0, 0))
    );
}

#[test]
fn closing_hour_is_the_last_hour_of_the_day() {
    assert_eq!(closing_hour(millis(2025, 2, 7, 0, 0, 0)), Some(millis(2025, 2, 7, 23, 0, 0)));
    assert_eq!(closing_hour(millis(2025, 2, 7, 23, 30, 0)), Some(millis(2025, 2, 7, 23, 0, 0)));
    assert_eq!(closing_hour(-1), Some(-MILLIS_PER_HOUR));
}

#[test]
fn hours_outside_the_millisecond_count() {
    // The day that holds i64::MIN begins below the count, but its last hour lies within.
    assert_eq!(closing_hour(i64::MIN), Some(-9_223_372_036_832_400_000));
    // The day that holds i64::MAX ends beyond the count.
    assert_eq!(closing_hour(i64::MAX), None);
    // i64::MIN lies on a Sunday; the Friday before it cannot be counted.
    assert_eq!(weekday_from_monday(i64::MIN), 6);
    assert_eq!(archive_hour_start(i64::MIN), None);
    // i64::MIN + 2 days lies on a Tuesday, in an hour that starts below i64::MIN + 2 days.
    assert_eq!(weekday_from_monday(i64::MIN + 2 * MILLIS_PER_DAY), 1);
    assert!(archive_hour_start(i64::MIN + 2 * MILLIS_PER_DAY).is_some());
    assert_eq!(weekday_from_monday(i64::MAX), 6);
    assert!(archive_hour_start(i64::MAX).is_some());
}
