use sedentary_tracker::config::alert_limit_sec;
use sedentary_tracker::config::fallback_batch_size;
use sedentary_tracker::config::fallback_replay_interval_ms;
use sedentary_tracker::config::fallback_timeout_seconds;
use sedentary_tracker::config::history_range;
use sedentary_tracker::config::parse_number;
use sedentary_tracker::config::sensor_history_limit;
use sedentary_tracker::config::setting;
use sedentary_tracker::config::ConfigError;
use sedentary_tracker::config::DEFAULT_BATCH_ROWS;
use sedentary_tracker::config::DEFAULT_FILE_REPLAY_INTERVAL_MS;
use sedentary_tracker::config::DEFAULT_HISTORY_ENTRIES;

#[test]
fn numbers_are_read_as_std_reads_them() {
    let texts = [
        "", "0", "7", "007", "+5", "+", "-5", "-0", "++5", "5+", " 5", "5 ", "1_000", "12a",
        "18446744073709551615", "18446744073709551616", "99999999999999999999999", "+0",
        "٣", "1.5", "0x10", "184467440737095516150",
    ];
    for text in texts {
        assert_eq!(parse_number(text), text.parse::<u64>().ok(), "{:?}", text);
    }
    assert_eq!(parse_number("1200"), Some(1200));
    assert_eq!(parse_number("18446744073709551615"), Some(u64::MAX));
    assert_eq!(parse_number("18446744073709551616"), None);
}

#[test]
fn unset_settings_take_their_defaults() {
    assert_eq!(alert_limit_sec(None), Ok(1200));
    assert_eq!(fallback_timeout_seconds(None), Ok(10));
    assert_eq!(fallback_batch_size(None), Ok(500));
    assert_eq!(fallback_replay_interval_ms(None), Ok(100));
    assert_eq!(sensor_history_limit(None), Ok(500));
    assert_eq!(DEFAULT_BATCH_ROWS, 500);
    assert_eq!(DEFAULT_HISTORY_ENTRIES, 500);
    assert_eq!(DEFAULT_FILE_REPLAY_INTERVAL_MS, 50);
}

#[test]
fn set_settings_are_read() {
    assert_eq!(alert_limit_sec(Some("60")), Ok(60));
    assert_eq!(fallback_timeout_seconds(Some("0")), Ok(0));
    assert_eq!(fallback_batch_size(Some("25")), Ok(25));
    assert_eq!(fallback_replay_interval_ms(Some("+250")), Ok(250));
    assert_eq!(sensor_history_limit(Some("100")), Ok(100));
}

#[test]
fn invalid_settings_are_errors() {
    assert_eq!(alert_limit_sec(Some("twenty")), Err(ConfigError::NotANumber));
    assert_eq!(alert_limit_sec(Some("")), Err(ConfigError::NotANumber));
    assert_eq!(fallback_timeout_seconds(Some("-1")), Err(ConfigError::NotANumber));
    assert_eq!(fallback_replay_interval_ms(Some("1e3")), Err(ConfigError::NotANumber));
    assert_eq!(
        alert_limit_sec(Some("18446744073709551616")),
        Err(ConfigError::NotANumber)
    );
}

#[test]
fn settings_beyond_their_limit_are_errors() {
    assert_eq!(fallback_batch_size(Some("9223372036854775807")), Ok(i64::MAX as u64));
    assert_eq!(fallback_batch_size(Some("9223372036854775808")), Err(ConfigError::TooLarge));
    assert_eq!(sensor_history_limit(Some("2147483647")), Ok(2147483647));
    assert_eq!(sensor_history_limit(Some("2147483648")), Err(ConfigError::TooLarge));
    assert_eq!(setting(Some("11"), 5, 10), Err(ConfigError::TooLarge));
    assert_eq!(setting(Some("10"), 5, 10), Ok(10));
    assert_eq!(setting(None, 5, 10), Ok(5));
}

#[test]
fn history_range_bounds() {
    assert_eq!(history_range(500), (0, 499));
    assert_eq!(history_range(1), (0, 0));
    assert_eq!(history_range(0), (0, -1));
    assert_eq!(history_range(2147483647), (0, 2147483646));
}
