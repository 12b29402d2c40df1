use chrono::NaiveDate;
use chrono::NaiveDateTime;
use sedentary_tracker::activity::ActivityState;
use sedentary_tracker::backfill::timer_of_row;
use sedentary_tracker::classifier::ClassifiedState;
use sedentary_tracker::storage::record_writes;
use sedentary_tracker::storage::storage_writes;
use sedentary_tracker::storage::timer_for_column;
use sedentary_tracker::storage::writes_with_owner;
use sedentary_tracker::storage::LogEntry;
use sedentary_tracker::storage::StateRecord;
use sedentary_tracker::storage::UserEntry;
use uuid::Uuid;

fn at() -> NaiveDateTime {
    NaiveDate::from_ymd_opt(2026, 1, 23).unwrap().and_hms_opt(9, 0, 0).unwrap()
}

fn state(timer: u64) -> ClassifiedState {
    ClassifiedState {
        activity_state: ActivityState::Sedentary,
        sedentary_timer_seconds: timer,
        smoothed_acceleration: 9_000,
        alert_triggered: true,
        observed_at_utc: at(),
    }
}

fn record(label: &str, timer: u64) -> StateRecord<'_> {
    StateRecord {
        label,
        timer_seconds: timer,
        acceleration: 9_000,
        alert_triggered: true,
        timestamp: at(),
    }
}

#[test]
fn timer_column_is_the_truncating_cast() {
    for timer in [
        0u64,
        1,
        1200,
        i32::MAX as u64,
        i32::MAX as u64 + 1,
        u32::MAX as u64,
        u32::MAX as u64 + 1,
        0x1_8000_0001,
        u64::MAX,
    ] {
        assert_eq!(timer_for_column(timer), timer as i32, "{}", timer);
    }
    assert_eq!(timer_for_column(1200), 1200);
    assert_eq!(timer_for_column(0x8000_0000), i32::MIN);
}

#[test]
fn stored_timer_reads_back() {
    for timer in [0u64, 1, 1200, i32::MAX as u64] {
        assert_eq!(timer_of_row(Some(timer_for_column(timer))), timer);
    }
}

#[test]
fn record_of_a_state_carries_its_label() {
    assert_eq!(StateRecord::of(&state(7)), record("SEDENTARY", 7));
    let mut active = state(0);
    active.activity_state = ActivityState::Active;
    assert_eq!(StateRecord::of(&active).label, "ACTIVE");
}

#[test]
fn log_row_only_without_default_user() {
    let writes = storage_writes(&state(1300), None);
    assert_eq!(
        writes.log,
        LogEntry { state: "SEDENTARY", timer_seconds: 1300, acceleration: 9_000 }
    );
    assert_eq!(writes.mirror, None);
}

#[test]
fn log_row_only_with_invalid_default_user() {
    let writes = storage_writes(&state(1300), Some("not-a-uuid"));
    assert_eq!(writes.log.timer_seconds, 1300);
    assert_eq!(writes.mirror, None);
    assert_eq!(storage_writes(&state(1), Some("")).mirror, None);
}

#[test]
fn user_row_with_default_user() {
    let text = "550e8400-e29b-41d4-a716-446655440000";
    let writes = storage_writes(&state(1300), Some(text));
    assert_eq!(
        writes.mirror,
        Some(UserEntry {
            user_id: Uuid::parse_str(text).unwrap(),
            state: "SEDENTARY",
            timer_seconds: 1300,
            acceleration: 9_000,
            alert_triggered: true,
            timestamp: at(),
        })
    );
    assert_eq!(writes.log.state, "SEDENTARY");
}

#[test]
fn user_row_with_owner_given() {
    let owner = Uuid::from_u128(7);
    let writes = writes_with_owner(&record("FIDGET", 5), Some(owner));
    assert_eq!(writes.mirror.unwrap().user_id, owner);
    assert_eq!(writes.mirror.unwrap().state, "FIDGET");
    assert_eq!(writes_with_owner(&record("FIDGET", 5), None).mirror, None);
}

#[test]
fn label_that_names_no_state_is_stored_as_it_came() {
    let text = "550e8400-e29b-41d4-a716-446655440000";
    let writes = record_writes(&record("RESTING", 42), Some(text));
    assert_eq!(
        writes.log,
        LogEntry { state: "RESTING", timer_seconds: 42, acceleration: 9_000 }
    );
    assert_eq!(writes.mirror.unwrap().state, "RESTING");
    assert_eq!(writes.mirror.unwrap().timer_seconds, 42);
    assert_eq!(record_writes(&record("", 1), None).log.state, "");
}
