//! Backfill: stored history replayed in place of live data while the sensor
//! is silent. Stored rows are not classified again. Their state, timer and
//! acceleration are taken as stored, and the alert follows from the timer. A
//! malformed row is passed over.

use crate::activity::state_named;
use crate::activity::ActivityState;
use crate::classifier::ClassifiedState;
use crate::clock::utc_now;
use crate::fallback::after_reading;
use crate::fallback::FallbackState;
use crate::fallback::LivenessState;
use chrono::NaiveDateTime;
use vstd::prelude::*;

verus! {

/// One stored row, as the storage reader hands it out.
#[derive(Clone, Debug, PartialEq, Eq)]
pub struct StoredRow {
    /// The label of the activity state.
    pub state: String,
    /// The sedentary timer in seconds, where the row has one.
    pub timer_seconds: Option<i32>,
    /// The smoothed acceleration in millionths, where the row has one.
    pub acceleration: Option<u32>,
    /// When the row was stored, where the row says so.
    pub created_at: Option<NaiveDateTime>,
}

/// The timer that a stored column stands for: 0 for a missing value, and the
/// value widened to 64 bits as two's complement, so that a negative entry
/// becomes a very large timer. A row with a negative entry is malformed and
/// never replayed.
pub open spec fn stored_timer(timer_seconds: Option<i32>) -> nat {
    match timer_seconds {
        None => 0,
        Some(seconds) => if seconds >= 0 {
            seconds as nat
        } else {
            (0x1_0000_0000_0000_0000 + seconds) as nat
        },
    }
}

/// Whether a stored row is malformed: its label names no state, or its timer
/// is negative.
pub open spec fn malformed(row: StoredRow) -> bool {
    ||| state_named(row.state@) is None
    ||| row.timer_seconds matches Some(seconds) && seconds < 0
}

/// What is replayed for a stored row: nothing where the row is malformed;
/// otherwise the stored state and timer, 0 for a missing timer or
/// acceleration, the alert by the timer, and `now` for a missing instant.
pub open spec fn replayed(row: StoredRow, alert_limit_seconds: u64, now: NaiveDateTime) -> Option<
    ClassifiedState,
> {
    if malformed(row) {
        None
    } else {
        Some(
            ClassifiedState {
                activity_state: state_named(row.state@)->0,
                sedentary_timer_seconds: stored_timer(row.timer_seconds) as u64,
                smoothed_acceleration: match row.acceleration {
                    Some(acceleration) => acceleration,
                    None => 0,
                },
                alert_triggered: stored_timer(row.timer_seconds) >= alert_limit_seconds,
                observed_at_utc: match row.created_at {
                    Some(at) => at,
                    None => now,
                },
            },
        )
    }
}

/// Number of flags up to the first that is false.
pub open spec fn leading_trues(flags: Seq<bool>) -> nat
    decreases flags.len(),
{
    if flags.len() == 0 || !flags.first() {
        0
    } else {
        1 + leading_trues(flags.drop_first())
    }
}

/// The row that one turn takes: the oldest pending, provided that there is
/// one and that backfill is still on.
pub open spec fn taken_in_turn(pending: Seq<StoredRow>, in_fallback: bool) -> Option<StoredRow> {
    if pending.len() > 0 && in_fallback {
        Some(pending.first())
    } else {
        None
    }
}

/// The rows still to come after one turn: those behind the row taken, and
/// none at all once a turn has found backfill off.
pub open spec fn rest_after_turn(pending: Seq<StoredRow>, in_fallback: bool) -> Seq<StoredRow> {
    if pending.len() > 0 && in_fallback {
        pending.drop_first()
    } else {
        Seq::empty()
    }
}

/// The rows that a replay takes, in the order in which it takes them, where
/// `pending` holds the rows oldest first and `flags` holds what the liveness
/// record said at each turn: true while backfill was still on.
pub open spec fn taken_rows(pending: Seq<StoredRow>, flags: Seq<bool>) -> Seq<StoredRow>
    decreases flags.len(),
{
    if flags.len() == 0 {
        Seq::empty()
    } else {
        let later = taken_rows(rest_after_turn(pending, flags.first()), flags.drop_first());
        match taken_in_turn(pending, flags.first()) {
            Some(row) => seq![row] + later,
            None => later,
        }
    }
}

/// The rows that are still to come after those turns.
pub open spec fn pending_after(pending: Seq<StoredRow>, flags: Seq<bool>) -> Seq<StoredRow>
    decreases flags.len(),
{
    if flags.len() == 0 {
        pending
    } else {
        pending_after(rest_after_turn(pending, flags.first()), flags.drop_first())
    }
}

/// What one turn of a replay gives.
#[derive(Clone, Copy, Debug, PartialEq, Eq)]
pub enum BackfillStep {
    /// The next row, ready to be sent.
    Emit(ClassifiedState),
    /// The next row was malformed and is passed over.
    Skip,
    /// Live data has resumed: the replay is over and the rows left are
    /// dropped.
    Interrupted,
    /// Every row has been replayed.
    Finished,
}

/// What a turn gives for the rows still pending and the liveness flag.
pub open spec fn step_for(
    pending: Seq<StoredRow>,
    in_fallback: bool,
    alert_limit_seconds: u64,
    now: NaiveDateTime,
) -> BackfillStep {
    if pending.len() == 0 {
        BackfillStep::Finished
    } else if !in_fallback {
        BackfillStep::Interrupted
    } else {
        match replayed(pending.first(), alert_limit_seconds, now) {
            Some(state) => BackfillStep::Emit(state),
            None => BackfillStep::Skip,
        }
    }
}

/// The sedentary timer of a stored row.
pub fn timer_of_row(timer_seconds: Option<i32>) -> (timer: u64)
    ensures
        timer == stored_timer(timer_seconds),
{
    match timer_seconds {
        None => 0,
        Some(seconds) => {
            if seconds >= 0 {
                seconds as u64
            } else {
                let below: u64 = (-(seconds + 1)) as u64;
                u64::MAX - below
            }
        },
    }
}

/// Turns one stored row into the state to replay; `None` for a malformed
/// row: one whose label names no state or whose timer is negative.
pub fn replay_row(row: &StoredRow, alert_limit_seconds: u64, now: NaiveDateTime) -> (state: Option<
    ClassifiedState,
>)
    ensures
        state == replayed(*row, alert_limit_seconds, now),
{
    let activity = match ActivityState::from_label(row.state.as_str()) {
        Some(activity) => activity,
        None => {
            return None;
        },
    };
    match row.timer_seconds {
        Some(seconds) => {
            if seconds < 0 {
                return None;
            }
        },
        None => {},
    }
    let timer = timer_of_row(row.timer_seconds);
    Some(
        ClassifiedState {
            activity_state: activity,
            sedentary_timer_seconds: timer,
            smoothed_acceleration: match row.acceleration {
                Some(acceleration) => acceleration,
                None => 0,
            },
            alert_triggered: timer >= alert_limit_seconds,
            observed_at_utc: match row.created_at {
                Some(at) => at,
                None => now,
            },
        },
    )
}

/// A replay in progress: the rows of one batch that are still to come.
pub struct BackfillReplay {
    /// Newest first, as fetched: the next row to replay is the last.
    rows: Vec<StoredRow>,
}

impl BackfillReplay {
    /// The rows still to come, oldest first.
    pub closed spec fn pending(&self) -> Seq<StoredRow> {
        self.rows@.reverse()
    }

    /// A replay of a batch that was fetched newest first. The rows will come
    /// out oldest first.
    pub fn new(newest_first: Vec<StoredRow>) -> (replay: BackfillReplay)
        ensures
            replay.pending() == newest_first@.reverse(),
    {
        BackfillReplay { rows: newest_first }
    }

    /// Number of rows still to come.
    pub fn remaining(&self) -> (count: usize)
        ensures
            count == self.pending().len(),
    {
        self.rows.len()
    }

    /// One turn. `in_fallback` is the liveness flag as read for this turn and
    /// `now` the current instant. With no row left the replay is finished.
    /// With backfill off it is interrupted and drops what is left. Otherwise
    /// the oldest pending row is taken: emitted, or skipped where it is
    /// malformed.
    pub fn next(&mut self, in_fallback: bool, alert_limit_seconds: u64, now: NaiveDateTime) -> (step:
        BackfillStep)
        ensures
            step == step_for(old(self).pending(), in_fallback, alert_limit_seconds, now),
            final(self).pending() == rest_after_turn(old(self).pending(), in_fallback),
    {
        let ghost before = self.pending();
        if self.rows.len() == 0 {
            assert(self.pending() =~= Seq::<StoredRow>::empty());
            return BackfillStep::Finished;
        }
        if !in_fallback {
            self.rows.clear();
            assert(self.pending() =~= Seq::<StoredRow>::empty());
            return BackfillStep::Interrupted;
        }
        let row = self.rows.pop().unwrap();
        proof {
            assert(row == before.first());
            assert(self.pending() =~= before.drop_first());
        }
        match replay_row(&row, alert_limit_seconds, now) {
            Some(state) => BackfillStep::Emit(state),
            None => BackfillStep::Skip,
        }
    }

    /// One turn against the shared liveness record and the clock: the flag
    /// is read anew for this turn, so a reading that arrived since the turn
    /// before ends the replay here.
    pub fn poll(&mut self, liveness: &FallbackState, alert_limit_seconds: u64) -> (step:
        BackfillStep)
        ensures
            exists|in_fallback: bool, now: NaiveDateTime|
                step == step_for(old(self).pending(), in_fallback, alert_limit_seconds, now)
                    && final(self).pending() == rest_after_turn(
                    old(self).pending(),
                    in_fallback,
                ),
    {
        let in_fallback = liveness.is_in_fallback();
        let now = utc_now();
        let step = self.next(in_fallback, alert_limit_seconds, now);
        assert(step == step_for(old(self).pending(), in_fallback, alert_limit_seconds, now)
            && self.pending() == rest_after_turn(old(self).pending(), in_fallback));
        step
    }
}

/// With nothing pending, no turn takes or leaves anything.
pub proof fn lemma_nothing_pending(flags: Seq<bool>)
    ensures
        pending_after(Seq::<StoredRow>::empty(), flags) == Seq::<StoredRow>::empty(),
        taken_rows(Seq::<StoredRow>::empty(), flags) == Seq::<StoredRow>::empty(),
    decreases flags.len(),
{
    if flags.len() > 0 {
        lemma_nothing_pending(flags.drop_first());
    }
}

/// A replay takes rows oldest first and stops for good at the first turn that
/// finds live data: what it takes is exactly the first rows of the batch, as
/// many as there were turns before that one, and no more than the batch
/// holds.
pub proof fn lemma_replay_takes_oldest_first(pending: Seq<StoredRow>, flags: Seq<bool>)
    ensures
        taken_rows(pending, flags) == pending.take(
            if leading_trues(flags) <= pending.len() {
                leading_trues(flags) as int
            } else {
                pending.len() as int
            },
        ),
    decreases flags.len(),
{
    if flags.len() == 0 {
        assert(taken_rows(pending, flags) =~= pending.take(0));
    } else if pending.len() == 0 || !flags.first() {
        lemma_nothing_pending(flags.drop_first());
        assert(taken_rows(pending, flags) =~= pending.take(0));
    } else {
        let rest = pending.drop_first();
        lemma_replay_takes_oldest_first(rest, flags.drop_first());
        let n = if leading_trues(flags) <= pending.len() {
            leading_trues(flags) as int
        } else {
            pending.len() as int
        };
        assert(taken_rows(pending, flags) =~= pending.take(n));
    }
}

/// Once a turn has found live data, nothing is left to replay: no later turn
/// takes a row, whatever the flag says then.
pub proof fn lemma_interrupted_replay_is_over(
    pending: Seq<StoredRow>,
    flags: Seq<bool>,
    later: Seq<bool>,
)
    requires
        leading_trues(flags) < flags.len(),
    ensures
        pending_after(pending, flags) == Seq::<StoredRow>::empty(),
        taken_rows(pending_after(pending, flags), later) == Seq::<StoredRow>::empty(),
    decreases flags.len(),
{
    lemma_nothing_pending(later);
    if pending.len() > 0 && flags.first() {
        lemma_interrupted_replay_is_over(pending.drop_first(), flags.drop_first(), later);
    } else {
        lemma_nothing_pending(flags.drop_first());
    }
}

/// Turns may be taken one at a time: the rows left after `flags` and then
/// `more` are those left after the two runs of turns joined, and the rows
/// taken are those of the first run followed by those of the second.
pub proof fn lemma_pending_after_turns(pending: Seq<StoredRow>, flags: Seq<bool>, more: Seq<bool>)
    ensures
        pending_after(pending_after(pending, flags), more) == pending_after(pending, flags + more),
        taken_rows(pending, flags + more) == taken_rows(pending, flags) + taken_rows(
            pending_after(pending, flags),
            more,
        ),
    decreases flags.len(),
{
    if flags.len() == 0 {
        assert(flags + more =~= more);
        assert(taken_rows(pending, flags) + taken_rows(pending, more) =~= taken_rows(
            pending,
            more,
        ));
    } else {
        assert((flags + more).first() == flags.first());
        assert((flags + more).drop_first() =~= flags.drop_first() + more);
        let rest = rest_after_turn(pending, flags.first());
        lemma_pending_after_turns(rest, flags.drop_first(), more);
        assert(taken_rows(pending, flags + more) =~= taken_rows(pending, flags) + taken_rows(
            pending_after(pending, flags),
            more,
        ));
    }
}

/// A raw reading ends a replay before its next row: whatever the liveness
/// record held, after the reading the flag is off, and a turn taken with that
/// flag emits nothing and leaves nothing pending.
pub proof fn lemma_reading_stops_replay(
    liveness: LivenessState,
    reading_at: u64,
    pending: Seq<StoredRow>,
    alert_limit_seconds: u64,
    now: NaiveDateTime,
)
    ensures
        !after_reading(liveness, reading_at).in_fallback,
        !(step_for(
            pending,
            after_reading(liveness, reading_at).in_fallback,
            alert_limit_seconds,
            now,
        ) is Emit),
        taken_in_turn(pending, after_reading(liveness, reading_at).in_fallback) is None,
        rest_after_turn(pending, after_reading(liveness, reading_at).in_fallback)
            == Seq::<StoredRow>::empty(),
{
}

} // verus!
