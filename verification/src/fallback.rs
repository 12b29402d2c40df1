//! Liveness tracking and the fallback controller.
//!
//! The controller has two regimes. While readings arrive it is live. Once the
//! sensor has been silent for the idle timeout, a periodic check moves it to
//! backfill, where stored history is replayed in place of live data. The next
//! reading moves it back at once.

use crate::clock::nanos_since_epoch;
use crate::clock::seconds_of_reading;
use std::sync::atomic::AtomicBool;
use std::sync::atomic::AtomicU64;
use std::sync::atomic::Ordering;
use vstd::prelude::*;

verus! {

/// Default idle timeout in seconds.
pub const DEFAULT_TIMEOUT_SECONDS: u64 = 10;

/// Default pause between two replayed rows, in milliseconds.
pub const DEFAULT_REPLAY_INTERVAL_MS: u64 = 100;

/// The two regimes of the controller.
#[derive(Clone, Copy, Debug, PartialEq, Eq, Structural)]
pub enum Regime {
    Live,
    Backfill,
}

/// What a periodic check asks of its caller.
#[derive(Clone, Copy, Debug, PartialEq, Eq, Structural)]
pub enum TickAction {
    /// Nothing to do until the next check.
    Wait,
    /// The controller has just entered backfill: replay stored history now.
    StartBackfill,
}

/// The liveness record as plain values: when the last raw reading arrived, in
/// seconds since the epoch, and whether the controller is in backfill.
#[derive(Clone, Copy, Debug, PartialEq, Eq, Structural)]
pub struct LivenessState {
    pub last_received_at: u64,
    pub in_fallback: bool,
}

/// Seconds without a reading at `now`; 0 where the clock reads earlier than
/// the last reading.
pub open spec fn idle_for(now: u64, last_received_at: u64) -> nat {
    if now >= last_received_at {
        (now - last_received_at) as nat
    } else {
        0
    }
}

/// Whether a check at `now` moves the controller from live to backfill.
pub open spec fn times_out(state: LivenessState, now: u64, timeout_seconds: u64) -> bool {
    !state.in_fallback && idle_for(now, state.last_received_at) >= timeout_seconds
}

/// The record after a raw reading at `now`.
pub open spec fn after_reading(state: LivenessState, now: u64) -> LivenessState {
    LivenessState { last_received_at: now, in_fallback: false }
}

/// The record after a periodic check at `now`.
pub open spec fn after_tick(state: LivenessState, now: u64, timeout_seconds: u64)
    -> LivenessState {
    if times_out(state, now, timeout_seconds) {
        LivenessState { last_received_at: state.last_received_at, in_fallback: true }
    } else {
        state
    }
}

/// The record after `ticks` checks in a row, one per second, the first of
/// them one second after `start`, with no reading in between.
pub open spec fn after_silence(
    state: LivenessState,
    start: u64,
    ticks: nat,
    timeout_seconds: u64,
) -> LivenessState
    decreases ticks,
{
    if ticks == 0 {
        state
    } else {
        after_tick(
            after_silence(state, start, (ticks - 1) as nat, timeout_seconds),
            (start + ticks) as u64,
            timeout_seconds,
        )
    }
}

/// Seconds between the last reading and `now`, never negative.
pub fn idle_seconds(now: u64, last_received_at: u64) -> (idle: u64)
    ensures
        idle == idle_for(now, last_received_at),
{
    now.saturating_sub(last_received_at)
}

/// The decision of the periodic check: enter backfill exactly when the
/// sensor has been idle for the timeout and backfill is not already on.
pub fn should_enter_fallback(seconds_idle: u64, timeout_seconds: u64, in_fallback: bool) -> (enter:
    bool)
    ensures
        enter == (seconds_idle >= timeout_seconds && !in_fallback),
{
    seconds_idle >= timeout_seconds && !in_fallback
}

impl LivenessState {
    /// The record at startup: live, with `now` as the instant of the last
    /// reading.
    pub fn starting_at(now: u64) -> (state: LivenessState)
        ensures
            state == (LivenessState { last_received_at: now, in_fallback: false }),
    {
        LivenessState { last_received_at: now, in_fallback: false }
    }

    /// The regime that this record stands for.
    pub fn regime(&self) -> (regime: Regime)
        ensures
            regime == (if self.in_fallback {
                Regime::Backfill
            } else {
                Regime::Live
            }),
    {
        if self.in_fallback {
            Regime::Backfill
        } else {
            Regime::Live
        }
    }

    /// A raw reading arrived at `now`: the controller is live, whatever it
    /// was before.
    pub fn on_reading(&mut self, now: u64)
        ensures
            *final(self) == after_reading(*old(self), now),
    {
        self.last_received_at = now;
        self.in_fallback = false;
    }

    /// A periodic check at `now`. Enters backfill, and says so, exactly when
    /// the record times out; otherwise the record is unchanged.
    pub fn on_tick(&mut self, now: u64, timeout_seconds: u64) -> (action: TickAction)
        ensures
            *final(self) == after_tick(*old(self), now, timeout_seconds),
            action == (if times_out(*old(self), now, timeout_seconds) {
                TickAction::StartBackfill
            } else {
                TickAction::Wait
            }),
    {
        let idle = idle_seconds(now, self.last_received_at);
        if should_enter_fallback(idle, timeout_seconds, self.in_fallback) {
            self.in_fallback = true;
            TickAction::StartBackfill
        } else {
            TickAction::Wait
        }
    }
}

/// The clock's reading in whole seconds since the Unix epoch, 0 for a clock
/// set before it.
pub(crate) fn current_timestamp() -> u64 {
    seconds_of_reading(nanos_since_epoch())
}

/// The liveness record shared between the sensor thread, the controller and
/// the backfill replay. Each field is an atomic of its own: a reader may see
/// the two fields at different moments, and another thread may write between
/// any two calls, so the methods promise nothing of the values they return.
/// What is decided on those values is decided by the functions above.
pub struct FallbackState {
    last_data_time: AtomicU64,
    is_fallback_active: AtomicBool,
}

impl FallbackState {
    /// A record that is live, with the current time as the instant of the
    /// last reading: the fields hold what `LivenessState::starting_at` gives
    /// for the clock's reading.
    pub fn new() -> FallbackState {
        let start = LivenessState::starting_at(current_timestamp());
        FallbackState {
            last_data_time: AtomicU64::new(start.last_received_at),
            is_fallback_active: AtomicBool::new(start.in_fallback),
        }
    }

    /// Notes that a raw reading has just arrived, and leaves backfill if it
    /// was on. Returns whether it was. What is written to the fields is what
    /// `LivenessState::on_reading` gives for the values read and the clock's
    /// reading; the flag is written only where it was on.
    pub fn record_data_received(&self) -> bool {
        let now = current_timestamp();
        let mut seen = self.snapshot();
        let was_in_fallback = seen.in_fallback;
        seen.on_reading(now);
        self.last_data_time.store(seen.last_received_at, Ordering::SeqCst);
        if was_in_fallback {
            self.is_fallback_active.store(seen.in_fallback, Ordering::SeqCst);
        }
        was_in_fallback
    }

    /// Seconds since the last raw reading.
    pub fn seconds_since_last_data(&self) -> u64 {
        let last = self.last_data_time.load(Ordering::SeqCst);
        idle_seconds(current_timestamp(), last)
    }

    /// Whether backfill is on.
    pub fn is_in_fallback(&self) -> bool {
        self.is_fallback_active.load(Ordering::SeqCst)
    }

    /// Turns backfill on. Returns whether this call turned it on, which is
    /// false where it was on already.
    pub fn enter_fallback(&self) -> bool {
        !self.is_fallback_active.swap(true, Ordering::SeqCst)
    }

    /// The two fields as plain values, each read at its own moment.
    pub fn snapshot(&self) -> LivenessState {
        LivenessState {
            last_received_at: self.last_data_time.load(Ordering::SeqCst),
            in_fallback: self.is_fallback_active.load(Ordering::SeqCst),
        }
    }

    /// One periodic check against the current time: enters backfill and asks
    /// for a replay where the values read time out. The values are read in
    /// this order: the instant of the last reading, the clock, the flag.
    /// What follows from them is what `LivenessState::on_tick` says.
    pub fn tick(&self, timeout_seconds: u64) -> TickAction {
        let last_received_at = self.last_data_time.load(Ordering::SeqCst);
        let now = current_timestamp();
        let in_fallback = self.is_fallback_active.load(Ordering::SeqCst);
        let mut seen = LivenessState { last_received_at, in_fallback };
        let action = seen.on_tick(now, timeout_seconds);
        match action {
            TickAction::StartBackfill => {
                self.enter_fallback();
            },
            TickAction::Wait => {},
        }
        action
    }
}

/// A reading always leaves the controller live.
pub proof fn lemma_reading_restores_live(state: LivenessState, now: u64)
    ensures
        !after_reading(state, now).in_fallback,
        after_reading(state, now).last_received_at == now,
{
}

/// A check on a live record enters backfill exactly when the sensor has been
/// idle for the timeout; a check never leaves backfill and never touches the
/// instant of the last reading.
pub proof fn lemma_tick(state: LivenessState, now: u64, timeout_seconds: u64)
    ensures
        after_tick(state, now, timeout_seconds).last_received_at == state.last_received_at,
        state.in_fallback ==> after_tick(state, now, timeout_seconds) == state,
        !state.in_fallback ==> (after_tick(state, now, timeout_seconds).in_fallback <==> idle_for(
            now,
            state.last_received_at,
        ) >= timeout_seconds),
{
}

/// Silence of the timeout's length: with the last reading at `start` and one
/// check per second, the controller stays live through every check before
/// the timeout has passed, and the check at `start + timeout_seconds` moves
/// it to backfill.
pub proof fn lemma_silence_enters_backfill(start: u64, timeout_seconds: u64, ticks: nat)
    requires
        timeout_seconds > 0,
        start + timeout_seconds <= u64::MAX,
        ticks <= timeout_seconds,
    ensures
        after_silence(
            LivenessState { last_received_at: start, in_fallback: false },
            start,
            ticks,
            timeout_seconds,
        ) == (LivenessState { last_received_at: start, in_fallback: ticks == timeout_seconds }),
    decreases ticks,
{
    if ticks > 0 {
        lemma_silence_enters_backfill(start, timeout_seconds, (ticks - 1) as nat);
    }
}

} // verus!
