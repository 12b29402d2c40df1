//! Wall-clock instants. The library carries UTC instants as
//! `chrono::NaiveDateTime` values and never looks inside them.

use chrono::NaiveDateTime;
use chrono::NaiveTime;
use vstd::prelude::*;

verus! {

#[verifier::external_type_specification]
#[verifier::external_body]
pub struct ExNaiveDateTime(chrono::NaiveDateTime);

#[verifier::external_type_specification]
#[verifier::external_body]
pub struct ExNaiveTime(chrono::NaiveTime);

/// The time of day that chrono reads from a label under the format
/// `%H:%M:%S`, or `None` where chrono rejects the label.
pub uninterp spec fn time_of_day(label: Seq<char>) -> Option<NaiveTime>;

/// The instant that has the calendar date of `day` and the time of day `time`.
pub uninterp spec fn same_day_at(day: NaiveDateTime, time: NaiveTime) -> NaiveDateTime;

/// The UTC instant that lies `nanos` nanoseconds after the Unix epoch, or
/// before it for a negative count.
pub uninterp spec fn instant_of(nanos: i64) -> NaiveDateTime;

/// The instant at which a reading labelled `label` is taken to have been
/// observed when the clock reads `now`: the labelled time on today's date, or
/// `now` itself where the label is not a time of day.
pub open spec fn observation_time(label: Seq<char>, now: NaiveDateTime) -> NaiveDateTime {
    stamp_of(time_of_day(label), now)
}

/// `observation_time` once the label has been read.
pub open spec fn stamp_of(parsed: Option<NaiveTime>, now: NaiveDateTime) -> NaiveDateTime {
    match parsed {
        Some(time) => same_day_at(now, time),
        None => now,
    }
}

/// `chrono::NaiveTime::parse_from_str` with the format `%H:%M:%S`. Trusted:
/// the outcome depends on the label alone, and an error of any kind becomes
/// `None`.
#[verifier::external_body]
fn parse_time_of_day(label: &str) -> (time: Option<NaiveTime>)
    ensures
        time == time_of_day(label@),
{
    NaiveTime::parse_from_str(label, "%H:%M:%S").ok()
}

/// `chrono::NaiveDate::and_time` on the date of `day`, which
/// `chrono::NaiveDateTime::date` hands out. Trusted: the outcome depends on
/// the two arguments alone.
#[verifier::external_body]
fn at_time_of_day(day: NaiveDateTime, time: NaiveTime) -> (at: NaiveDateTime)
    ensures
        at == same_day_at(day, time),
{
    day.date().and_time(time)
}

/// `std::time::SystemTime::now` as nanoseconds since the Unix epoch, 0 for a
/// clock set before it. Nothing is claimed of the value.
#[verifier::external_body]
pub(crate) fn nanos_since_epoch() -> u128 {
    std::time::SystemTime::now().duration_since(std::time::UNIX_EPOCH).unwrap_or_default().as_nanos()
}

/// The whole seconds of a clock reading given in nanoseconds; the largest
/// count where they do not fit.
pub open spec fn whole_seconds(nanos: u128) -> u64 {
    if nanos / 1_000_000_000 > u64::MAX {
        u64::MAX
    } else {
        (nanos / 1_000_000_000) as u64
    }
}

/// The whole seconds of a clock reading given in nanoseconds.
pub fn seconds_of_reading(nanos: u128) -> (seconds: u64)
    ensures
        seconds == whole_seconds(nanos),
{
    let seconds = nanos / 1_000_000_000;
    if seconds > 0xffff_ffff_ffff_ffff {
        0xffff_ffff_ffff_ffff
    } else {
        seconds as u64
    }
}

/// `chrono::DateTime::from_timestamp_nanos`, as a naive UTC instant. Trusted:
/// the outcome depends on the count alone. chrono documents that every count
/// is in its range.
#[verifier::external_body]
fn instant_at(nanos: i64) -> (at: NaiveDateTime)
    ensures
        at == instant_of(nanos),
{
    chrono::DateTime::from_timestamp_nanos(nanos).naive_utc()
}

/// The nanoseconds of a clock reading as a signed count: readings beyond the
/// largest count are taken as the largest.
pub open spec fn bounded_nanos(nanos: u128) -> i64 {
    if nanos > i64::MAX {
        i64::MAX
    } else {
        nanos as i64
    }
}

/// The instant of a clock reading, given in nanoseconds since the epoch.
pub fn instant_of_reading(nanos: u128) -> (at: NaiveDateTime)
    ensures
        at == instant_of(bounded_nanos(nanos)),
{
    let bounded: i64 = if nanos > 0x7fff_ffff_ffff_ffff {
        0x7fff_ffff_ffff_ffff
    } else {
        nanos as i64
    };
    instant_at(bounded)
}

/// The current instant in UTC, never before the epoch.
pub(crate) fn utc_now() -> (now: NaiveDateTime)
    ensures
        exists|nanos: i64| 0 <= nanos && now == instant_of(nanos),
{
    let nanos = nanos_since_epoch();
    let now = instant_of_reading(nanos);
    assert(0 <= bounded_nanos(nanos) && now == instant_of(bounded_nanos(nanos)));
    now
}

/// Places an already-read time of day on the date of `now`; without one the
/// instant is `now`.
pub fn stamp_with(parsed: Option<NaiveTime>, now: NaiveDateTime) -> (at: NaiveDateTime)
    ensures
        at == stamp_of(parsed, now),
{
    match parsed {
        Some(time) => at_time_of_day(now, time),
        None => now,
    }
}

/// The observation instant of a reading labelled `label`, given the current
/// instant.
pub fn observed_at(label: &str, now: NaiveDateTime) -> (at: NaiveDateTime)
    ensures
        at == observation_time(label@, now),
{
    stamp_with(parse_time_of_day(label), now)
}

} // verus!
