//! The two sources that classify raw readings. Each owns a classifier of its
//! own: what the live source has seen never reaches a replay, nor the other
//! way round.

use crate::classifier::reports;
use crate::classifier::step;
use crate::classifier::ClassifiedState;
use crate::classifier::Classifier;
use crate::classifier::ClassifierState;
use crate::classifier::RawReading;
use crate::classifier::Thresholds;
use crate::classifier::fresh;
use crate::fallback::FallbackState;
use vstd::prelude::*;

verus! {

/// What the live source hands on for one reading.
#[derive(Clone, Copy, Debug, PartialEq, Eq)]
pub struct LiveOutcome {
    /// The classified state, to be broadcast and cached.
    pub state: ClassifiedState,
    /// Whether this reading ended a backfill.
    pub reconnected: bool,
}

/// The source fed by the sensor. Every reading is first reported to the
/// liveness record and then classified.
pub struct LiveSource {
    classifier: Classifier,
}

impl LiveSource {
    /// The memory of the source's classifier.
    pub closed spec fn memory(&self) -> ClassifierState {
        self.classifier@
    }

    /// The thresholds of the source's classifier.
    pub closed spec fn thresholds(&self) -> Thresholds {
        self.classifier.thresholds()
    }

    /// A source that has seen nothing.
    pub fn new(thresholds: Thresholds) -> (source: LiveSource)
        ensures
            source.memory() == fresh(),
            source.thresholds() == thresholds,
    {
        LiveSource { classifier: Classifier::new(thresholds) }
    }

    /// The sedentary timer, in seconds.
    pub fn sedentary_timer_seconds(&self) -> (timer: u64)
        ensures
            timer == self.memory().timer,
    {
        self.classifier.sedentary_timer_seconds()
    }

    /// Takes one reading from the sensor: tells the liveness record that data
    /// has arrived, which ends a backfill at once, and classifies the
    /// reading with the instant that the clock and its label give.
    pub fn ingest(&mut self, liveness: &FallbackState, reading: &RawReading) -> (outcome:
        LiveOutcome)
        requires
            old(self).memory().timer < u64::MAX,
        ensures
            final(self).memory() == step(old(self).thresholds(), old(self).memory(), *reading),
            final(self).thresholds() == old(self).thresholds(),
            reports(
                outcome.state,
                old(self).thresholds(),
                old(self).memory(),
                *reading,
                outcome.state.observed_at_utc,
            ),
    {
        let reconnected = liveness.record_data_received();
        let state = self.classifier.classify_now(reading);
        LiveOutcome { state, reconnected }
    }
}

/// The source fed by a recorded log. It classifies as the live source does,
/// counts what it emits, and never touches the liveness record.
pub struct FileReplay {
    classifier: Classifier,
    emitted: usize,
}

impl FileReplay {
    /// The memory of the replay's classifier.
    pub closed spec fn memory(&self) -> ClassifierState {
        self.classifier@
    }

    /// The thresholds of the replay's classifier.
    pub closed spec fn thresholds(&self) -> Thresholds {
        self.classifier.thresholds()
    }

    /// Number of records emitted so far.
    pub closed spec fn emitted(&self) -> nat {
        self.emitted as nat
    }

    /// A replay that has emitted nothing.
    pub fn new(thresholds: Thresholds) -> (replay: FileReplay)
        ensures
            replay.memory() == fresh(),
            replay.thresholds() == thresholds,
            replay.emitted() == 0,
    {
        FileReplay { classifier: Classifier::new(thresholds), emitted: 0 }
    }

    /// Number of records emitted so far.
    pub fn count(&self) -> (count: usize)
        ensures
            count == self.emitted(),
    {
        self.emitted
    }

    /// The sedentary timer, in seconds.
    pub fn sedentary_timer_seconds(&self) -> (timer: u64)
        ensures
            timer == self.memory().timer,
    {
        self.classifier.sedentary_timer_seconds()
    }

    /// Takes one recorded reading: classifies it with the instant that the
    /// clock and its label give, and counts it.
    pub fn emit(&mut self, reading: &RawReading) -> (state: ClassifiedState)
        requires
            old(self).memory().timer < u64::MAX,
            old(self).emitted() < usize::MAX,
        ensures
            final(self).memory() == step(old(self).thresholds(), old(self).memory(), *reading),
            final(self).thresholds() == old(self).thresholds(),
            final(self).emitted() == old(self).emitted() + 1,
            reports(
                state,
                old(self).thresholds(),
                old(self).memory(),
                *reading,
                state.observed_at_utc,
            ),
    {
        let state = self.classifier.classify_now(reading);
        self.emitted = self.emitted + 1;
        state
    }
}

} // verus!
