//! The configuration surface: the settings of the pipeline, their defaults,
//! and how a setting is read from the text that the environment holds.

use crate::classifier::DEFAULT_ALERT_LIMIT_SECONDS;
use crate::fallback::DEFAULT_REPLAY_INTERVAL_MS;
use crate::fallback::DEFAULT_TIMEOUT_SECONDS;
use vstd::prelude::*;

verus! {

/// Default number of stored rows fetched for one backfill.
pub const DEFAULT_BATCH_ROWS: u64 = 500;

/// Default capacity of the history cache.
pub const DEFAULT_HISTORY_ENTRIES: u64 = 500;

/// Default pause between two records of a file replay, in milliseconds.
pub const DEFAULT_FILE_REPLAY_INTERVAL_MS: u64 = 50;

/// Why a setting was refused.
#[derive(Clone, Copy, Debug, PartialEq, Eq, Structural)]
pub enum ConfigError {
    /// The text is not a decimal number that fits.
    NotANumber,
    /// The number is larger than the setting allows.
    TooLarge,
}

/// Whether `c` is one of the ten decimal digits.
pub open spec fn is_digit(c: char) -> bool {
    '0' <= c <= '9'
}

/// The value of a decimal digit.
pub open spec fn digit_value(c: char) -> nat {
    (c as u32 - '0' as u32) as nat
}

/// Whether the text holds decimal digits only.
pub open spec fn all_digits(text: Seq<char>) -> bool {
    forall|i: int| 0 <= i < text.len() ==> is_digit(#[trigger] text[i])
}

/// The number that a run of decimal digits writes.
pub open spec fn decimal_value(digits: Seq<char>) -> nat
    decreases digits.len(),
{
    if digits.len() == 0 {
        0
    } else {
        decimal_value(digits.drop_last()) * 10 + digit_value(digits.last())
    }
}

/// The text without one leading `+`.
pub open spec fn without_plus(text: Seq<char>) -> Seq<char> {
    if text.len() > 0 && text.first() == '+' {
        text.drop_first()
    } else {
        text
    }
}

/// The unsigned number that the text writes: decimal digits, at least one,
/// after an optional `+`, with a value that fits 64 bits. Anything else,
/// white space included, writes no number.
pub open spec fn number_in(text: Seq<char>) -> Option<u64> {
    let digits = without_plus(text);
    if digits.len() > 0 && all_digits(digits) && decimal_value(digits) <= u64::MAX {
        Some(decimal_value(digits) as u64)
    } else {
        None
    }
}

/// The characters of a text that may be missing.
pub open spec fn text_of(raw: Option<&str>) -> Option<Seq<char>> {
    match raw {
        Some(text) => Some(text@),
        None => None,
    }
}

/// What a setting comes to: the default where the environment holds nothing,
/// the number where it holds one within the limit, and an error otherwise.
pub open spec fn setting_of(raw: Option<Seq<char>>, default: u64, limit: u64) -> Result<
    u64,
    ConfigError,
> {
    match raw {
        None => Ok(default),
        Some(text) => match number_in(text) {
            None => Err(ConfigError::NotANumber),
            Some(value) => if value <= limit {
                Ok(value)
            } else {
                Err(ConfigError::TooLarge)
            },
        },
    }
}

/// A number written with more digits is no smaller than the number that its
/// first digits write.
pub proof fn lemma_decimal_value_grows(digits: Seq<char>, k: int)
    requires
        0 <= k <= digits.len(),
    ensures
        decimal_value(digits.take(k)) <= decimal_value(digits),
    decreases digits.len() - k,
{
    if k < digits.len() {
        lemma_decimal_value_grows(digits, k + 1);
        assert(digits.take(k + 1).drop_last() =~= digits.take(k));
    } else {
        assert(digits.take(k) =~= digits);
    }
}

/// Reads an unsigned decimal number.
pub fn parse_number(text: &str) -> (number: Option<u64>)
    ensures
        number == number_in(text@),
{
    let len = text.unicode_len();
    let mut value: u64 = 0;
    let mut ok = true;
    let mut seen: usize = 0;
    let mut first = true;
    let ghost digits = without_plus(text@);
    let ghost skipped: int = text@.len() - digits.len();
    for c in it: text.chars()
        invariant
            it.seq() == text@,
            len == text@.len(),
            digits == without_plus(text@),
            skipped == text@.len() - digits.len(),
            0 <= skipped <= 1,
            first == (it.index() == 0),
            ok ==> seen == it.index() - (if it.index() > 0 {
                skipped
            } else {
                0
            }),
            ok ==> seen <= digits.len(),
            ok ==> all_digits(digits.take(seen as int)),
            ok ==> value == decimal_value(digits.take(seen as int)),
            !ok ==> number_in(text@) is None,
    {
        if ok {
            if first && c == '+' {
                assert(skipped == 1);
            } else {
                proof {
                    if skipped == 1 {
                        assert(it.index() > 0);
                        assert(digits[seen as int] == text@[seen + 1]);
                    } else {
                        assert(digits =~= text@);
                    }
                    assert(digits[seen as int] == c);
                    assert(digits.take(seen + 1).drop_last() =~= digits.take(seen as int));
                    assert(digits.take(seen + 1).last() == c);
                    lemma_decimal_value_grows(digits, seen + 1);
                }
                if c >= '0' && c <= '9' {
                    let digit: u64 = (c as u32 - '0' as u32) as u64;
                    if value > (u64::MAX - digit) / 10 {
                        ok = false;
                    } else {
                        value = value * 10 + digit;
                        seen = seen + 1;
                    }
                } else {
                    ok = false;
                }
            }
        }
        first = false;
    }
    if ok && seen > 0 {
        proof {
            assert(digits.take(seen as int) =~= digits);
        }
        Some(value)
    } else {
        proof {
            if ok {
                assert(digits.len() == 0);
            }
        }
        None
    }
}

/// Reads one setting: `raw` is what the environment holds for it, if
/// anything.
pub fn setting(raw: Option<&str>, default: u64, limit: u64) -> (value: Result<u64, ConfigError>)
    ensures
        value == setting_of(text_of(raw), default, limit),
{
    match raw {
        None => Ok(default),
        Some(text) => match parse_number(text) {
            None => Err(ConfigError::NotANumber),
            Some(value) => if value <= limit {
                Ok(value)
            } else {
                Err(ConfigError::TooLarge)
            },
        },
    }
}

/// Seconds of sedentary time at which the alert is raised; 1200 unless set.
pub fn alert_limit_sec(raw: Option<&str>) -> (value: Result<u64, ConfigError>)
    ensures
        value == setting_of(text_of(raw), DEFAULT_ALERT_LIMIT_SECONDS, u64::MAX),
{
    setting(raw, DEFAULT_ALERT_LIMIT_SECONDS, u64::MAX)
}

/// Seconds of silence after which backfill starts; 10 unless set.
pub fn fallback_timeout_seconds(raw: Option<&str>) -> (value: Result<u64, ConfigError>)
    ensures
        value == setting_of(text_of(raw), DEFAULT_TIMEOUT_SECONDS, u64::MAX),
{
    setting(raw, DEFAULT_TIMEOUT_SECONDS, u64::MAX)
}

/// Rows fetched for one backfill; 500 unless set. The storage reader takes a
/// signed 64-bit limit, so no more than that is accepted.
pub fn fallback_batch_size(raw: Option<&str>) -> (value: Result<u64, ConfigError>)
    ensures
        value == setting_of(text_of(raw), DEFAULT_BATCH_ROWS, 0x7fff_ffff_ffff_ffff),
{
    setting(raw, DEFAULT_BATCH_ROWS, 0x7fff_ffff_ffff_ffff)
}

/// Milliseconds between two replayed rows; 100 unless set.
pub fn fallback_replay_interval_ms(raw: Option<&str>) -> (value: Result<u64, ConfigError>)
    ensures
        value == setting_of(text_of(raw), DEFAULT_REPLAY_INTERVAL_MS, u64::MAX),
{
    setting(raw, DEFAULT_REPLAY_INTERVAL_MS, u64::MAX)
}

/// Capacity of the history cache; 500 unless set. The cache takes signed
/// 32-bit positions at the least, so no more than that is accepted.
pub fn sensor_history_limit(raw: Option<&str>) -> (value: Result<u64, ConfigError>)
    ensures
        value == setting_of(text_of(raw), DEFAULT_HISTORY_ENTRIES, 0x7fff_ffff),
{
    setting(raw, DEFAULT_HISTORY_ENTRIES, 0x7fff_ffff)
}

/// The positions that bound a history of `limit` entries in the cache, first
/// and last: what is kept on a trim and what is fetched for a new observer.
/// For a limit of 0 the last position is -1, which a cache that counts from
/// the end reads as its last entry.
pub fn history_range(limit: u64) -> (range: (i64, i64))
    requires
        limit <= 0x7fff_ffff,
    ensures
        range.0 == 0,
        range.1 == limit - 1,
{
    (0, limit as i64 - 1)
}

} // verus!
