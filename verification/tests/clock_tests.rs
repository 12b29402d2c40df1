use chrono::NaiveDate;
use chrono::NaiveDateTime;
use chrono::NaiveTime;
use sedentary_tracker::clock::instant_of_reading;
use sedentary_tracker::clock::observed_at;
use sedentary_tracker::clock::seconds_of_reading;
use sedentary_tracker::clock::stamp_with;

fn day(h: u32, m: u32, s: u32) -> NaiveDateTime {
    NaiveDate::from_ymd_opt(2026, 1, 23).unwrap().and_hms_opt(h, m, s).unwrap()
}

#[test]
fn label_gives_time_on_the_day_of_now() {
    assert_eq!(observed_at("10:00:01", day(23, 59, 59)), day(10, 0, 1));
    assert_eq!(observed_at("00:00:00", day(12, 0, 0)), day(0, 0, 0));
    assert_eq!(observed_at("23:59:59", day(0, 0, 0)), day(23, 59, 59));
}

#[test]
fn label_that_is_no_time_gives_now() {
    let now = day(12, 34, 56);
    assert_eq!(observed_at("", now), now);
    assert_eq!(observed_at("noon", now), now);
    assert_eq!(observed_at("24:00:00", now), now);
    assert_eq!(observed_at("10:00", now), now);
    assert_eq!(observed_at("10:61:00", now), now);
}

#[test]
fn stamp_with_a_time_or_without() {
    let now = day(12, 34, 56);
    assert_eq!(stamp_with(None, now), now);
    let time = NaiveTime::from_hms_opt(1, 2, 3).unwrap();
    assert_eq!(stamp_with(Some(time), now), day(1, 2, 3));
}

#[test]
fn instant_of_a_clock_reading() {
    let epoch = NaiveDate::from_ymd_opt(1970, 1, 1).unwrap().and_hms_opt(0, 0, 0).unwrap();
    assert_eq!(instant_of_reading(0), epoch);
    assert_eq!(
        instant_of_reading(1_769_169_600_000_000_000 + 123),
        NaiveDate::from_ymd_opt(2026, 1, 23).unwrap().and_hms_nano_opt(12, 0, 0, 123).unwrap()
    );
}

#[test]
fn instant_of_a_reading_beyond_the_largest_count() {
    let last = chrono::DateTime::from_timestamp_nanos(i64::MAX).naive_utc();
    assert_eq!(instant_of_reading(i64::MAX as u128), last);
    assert_eq!(instant_of_reading(i64::MAX as u128 + 1), last);
    assert_eq!(instant_of_reading(u128::MAX), last);
    assert_eq!(
        instant_of_reading(i64::MAX as u128 - 1),
        chrono::DateTime::from_timestamp_nanos(i64::MAX - 1).naive_utc()
    );
}

#[test]
fn whole_seconds_of_a_clock_reading() {
    assert_eq!(seconds_of_reading(0), 0);
    assert_eq!(seconds_of_reading(999_999_999), 0);
    assert_eq!(seconds_of_reading(1_000_000_000), 1);
    assert_eq!(seconds_of_reading(1_769_169_600_999_999_999), 1_769_169_600);
    assert_eq!(seconds_of_reading(u64::MAX as u128 * 1_000_000_000), u64::MAX);
    assert_eq!(seconds_of_reading(u128::MAX), u64::MAX);
}
