//! What the storage writer is handed for each classified state: one row for
//! the activity log and, where a default user is configured, one row more
//! for that user's statistics.

use crate::activity::label_of;
use crate::classifier::ClassifiedState;
use crate::config::text_of;
use chrono::NaiveDateTime;
use uuid::Uuid;
use vstd::prelude::*;

verus! {

#[verifier::external_type_specification]
#[verifier::external_body]
pub struct ExUuid(uuid::Uuid);

/// The identifier that the uuid crate reads from a text, or `None` where it
/// rejects the text.
pub uninterp spec fn uuid_in(text: Seq<char>) -> Option<Uuid>;

/// `uuid::Uuid::parse_str`. Trusted: the outcome depends on the text alone,
/// and an error of any kind becomes `None`.
#[verifier::external_body]
fn parse_uuid(text: &str) -> (id: Option<Uuid>)
    ensures
        id == uuid_in(text@),
{
    Uuid::parse_str(text).ok()
}

/// The timer as the storage column holds it: the low 32 bits, read as a
/// signed number. Timers below 2^31 are stored as they are.
pub open spec fn timer_column(timer: nat) -> int {
    let low = timer % 0x1_0000_0000;
    if low < 0x8000_0000 {
        low as int
    } else {
        low - 0x1_0000_0000
    }
}

/// A state as it came off the feed, with its label kept as text.
#[derive(Clone, Copy, Debug, PartialEq, Eq)]
pub struct StateRecord<'a> {
    pub label: &'a str,
    pub timer_seconds: u64,
    pub acceleration: u32,
    pub alert_triggered: bool,
    pub timestamp: NaiveDateTime,
}

/// A row of the activity log.
#[derive(Clone, Copy, Debug, PartialEq, Eq)]
pub struct LogEntry<'a> {
    pub state: &'a str,
    pub timer_seconds: i32,
    pub acceleration: u32,
}

/// A row of one user's statistics.
#[derive(Clone, Copy, Debug, PartialEq, Eq)]
pub struct UserEntry<'a> {
    pub user_id: Uuid,
    pub state: &'a str,
    pub timer_seconds: i32,
    pub acceleration: u32,
    pub alert_triggered: bool,
    pub timestamp: NaiveDateTime,
}

/// The rows to write for one state.
#[derive(Clone, Copy, Debug, PartialEq, Eq)]
pub struct StorageWrites<'a> {
    pub log: LogEntry<'a>,
    pub mirror: Option<UserEntry<'a>>,
}

/// The record of a classified state: its label and its fields.
pub open spec fn record_of(state: ClassifiedState, label: &'static str) -> StateRecord<'static> {
    StateRecord {
        label,
        timer_seconds: state.sedentary_timer_seconds,
        acceleration: state.smoothed_acceleration,
        alert_triggered: state.alert_triggered,
        timestamp: state.observed_at_utc,
    }
}

/// The rows for `record` where the default user, if any, is `owner`. The
/// label is stored as it came, whether or not it names a state.
pub open spec fn writes_for<'a>(record: StateRecord<'a>, owner: Option<Uuid>) -> StorageWrites<'a> {
    StorageWrites {
        log: LogEntry {
            state: record.label,
            timer_seconds: timer_column(record.timer_seconds as nat) as i32,
            acceleration: record.acceleration,
        },
        mirror: match owner {
            None => None,
            Some(user_id) => Some(
                UserEntry {
                    user_id,
                    state: record.label,
                    timer_seconds: timer_column(record.timer_seconds as nat) as i32,
                    acceleration: record.acceleration,
                    alert_triggered: record.alert_triggered,
                    timestamp: record.timestamp,
                },
            ),
        },
    }
}

/// The default user that the configured text names: none where nothing is
/// configured, and none where the text is no identifier.
pub open spec fn owner_of(default_user: Option<Seq<char>>) -> Option<Uuid> {
    match default_user {
        Some(text) => uuid_in(text),
        None => None,
    }
}

/// The timer for the storage column.
pub fn timer_for_column(timer: u64) -> (column: i32)
    ensures
        column == timer_column(timer as nat),
        timer < 0x8000_0000 ==> column == timer,
{
    let low: u64 = timer % 0x1_0000_0000;
    if low < 0x8000_0000 {
        low as i32
    } else {
        (low as i64 - 0x1_0000_0000) as i32
    }
}

impl StateRecord<'static> {
    /// The record of a classified state, labelled with the label of its
    /// activity state.
    pub fn of(state: &ClassifiedState) -> (record: StateRecord<'static>)
        ensures
            record.label@ == label_of(state.activity_state),
            record == record_of(*state, record.label),
    {
        StateRecord {
            label: state.activity_state.label(),
            timer_seconds: state.sedentary_timer_seconds,
            acceleration: state.smoothed_acceleration,
            alert_triggered: state.alert_triggered,
            timestamp: state.observed_at_utc,
        }
    }
}

/// The rows to write for `record`, given the identifier of the default user
/// where one was read.
pub fn writes_with_owner<'a>(record: &StateRecord<'a>, owner: Option<Uuid>) -> (writes:
    StorageWrites<'a>)
    ensures
        writes == writes_for(*record, owner),
{
    let timer_seconds = timer_for_column(record.timer_seconds);
    StorageWrites {
        log: LogEntry { state: record.label, timer_seconds, acceleration: record.acceleration },
        mirror: match owner {
            None => None,
            Some(user_id) => Some(
                UserEntry {
                    user_id,
                    state: record.label,
                    timer_seconds,
                    acceleration: record.acceleration,
                    alert_triggered: record.alert_triggered,
                    timestamp: record.timestamp,
                },
            ),
        },
    }
}

/// The rows to write for a record off the feed, given the text configured
/// for the default user, if any. The log row is always written; the user row
/// only where the text is an identifier.
pub fn record_writes<'a>(record: &StateRecord<'a>, default_user: Option<&str>) -> (writes:
    StorageWrites<'a>)
    ensures
        writes == writes_for(*record, owner_of(text_of(default_user))),
{
    let owner = match default_user {
        Some(text) => parse_uuid(text),
        None => None,
    };
    writes_with_owner(record, owner)
}

/// The rows to write for a classified state, given the text configured for
/// the default user, if any.
pub fn storage_writes(state: &ClassifiedState, default_user: Option<&str>) -> (writes:
    StorageWrites<'static>)
    ensures
        writes.log.state@ == label_of(state.activity_state),
        writes == writes_for(
            record_of(*state, writes.log.state),
            owner_of(text_of(default_user)),
        ),
{
    let record = StateRecord::of(state);
    record_writes(&record, default_user)
}

} // verus!
