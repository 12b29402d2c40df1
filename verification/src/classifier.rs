//! The classifier: a smoothing window over the recent acceleration
//! magnitudes, the activity rule, and the sedentary timer.
//!
//! Acceleration magnitudes are fixed-point numbers: a `u32` counts millionths
//! of the sensor's unit, so a magnitude of 0.02 is `20_000`. The mean of a
//! window is rounded down to a whole millionth.

use crate::activity::ActivityState;
use crate::clock::observation_time;
use crate::clock::observed_at;
use crate::clock::utc_now;
use chrono::NaiveDateTime;
use std::collections::VecDeque;
use vstd::prelude::*;

verus! {

/// Number of samples that the smoothing window holds at most.
pub const SMOOTHING_WINDOW: usize = 10;

/// Default fidget threshold: 0.020 in millionths.
pub const DEFAULT_FIDGET_THRESHOLD: u32 = 20_000;

/// Default active threshold: 0.040 in millionths.
pub const DEFAULT_ACTIVE_THRESHOLD: u32 = 40_000;

/// Default number of sedentary seconds at which the alert is raised.
pub const DEFAULT_ALERT_LIMIT_SECONDS: u64 = 1200;

/// The configured limits of the activity rule and of the alert.
#[derive(Clone, Copy, Debug, PartialEq, Eq, Structural)]
pub struct Thresholds {
    /// A smoothed acceleration above this is at least fidgeting.
    pub fidget: u32,
    /// A smoothed acceleration above this is activity.
    pub active: u32,
    /// The alert is raised once the sedentary timer reaches this.
    pub alert_limit_seconds: u64,
}

impl Default for Thresholds {
    fn default() -> (thresholds: Thresholds)
        ensures
            thresholds == (Thresholds {
                fidget: DEFAULT_FIDGET_THRESHOLD,
                active: DEFAULT_ACTIVE_THRESHOLD,
                alert_limit_seconds: DEFAULT_ALERT_LIMIT_SECONDS,
            }),
    {
        Thresholds {
            fidget: DEFAULT_FIDGET_THRESHOLD,
            active: DEFAULT_ACTIVE_THRESHOLD,
            alert_limit_seconds: DEFAULT_ALERT_LIMIT_SECONDS,
        }
    }
}

/// One reading as the sensor reports it.
#[derive(Clone, Debug, PartialEq, Eq)]
pub struct RawReading {
    /// Time-of-day label, to the second. Readings with equal labels fall into
    /// the same second.
    pub ts: String,
    /// Whether the motion detector fired.
    pub motion_detected: bool,
    /// Acceleration magnitude in millionths.
    pub acceleration: u32,
}

impl RawReading {
    /// A reading from the sensor's own fields, where the motion detector
    /// reports `1` for motion and anything else for none.
    pub fn from_sensor(ts: String, pir: i32, acceleration: u32) -> (reading: RawReading)
        ensures
            reading.ts == ts,
            reading.motion_detected == (pir == 1),
            reading.acceleration == acceleration,
    {
        RawReading { ts, motion_detected: pir == 1, acceleration }
    }
}

/// What the classifier says of one reading: the unit that is broadcast,
/// cached and stored.
#[derive(Clone, Copy, Debug, PartialEq, Eq)]
pub struct ClassifiedState {
    pub activity_state: ActivityState,
    pub sedentary_timer_seconds: u64,
    /// Mean of the smoothing window, in millionths.
    pub smoothed_acceleration: u32,
    pub alert_triggered: bool,
    pub observed_at_utc: NaiveDateTime,
}

/// Sum of the samples.
pub open spec fn total(samples: Seq<u32>) -> nat
    decreases samples.len(),
{
    if samples.len() == 0 {
        0
    } else {
        total(samples.drop_last()) + samples.last() as nat
    }
}

/// Arithmetic mean of the samples, rounded down; 0 for no samples.
pub open spec fn mean(samples: Seq<u32>) -> nat {
    if samples.len() == 0 {
        0
    } else {
        total(samples) / samples.len()
    }
}

/// The last `SMOOTHING_WINDOW` samples, in order; all of them where there are
/// no more than that.
pub open spec fn recent(samples: Seq<u32>) -> Seq<u32> {
    if samples.len() <= SMOOTHING_WINDOW {
        samples
    } else {
        samples.subrange(samples.len() - SMOOTHING_WINDOW, samples.len() as int)
    }
}

/// The activity rule: motion or a smoothed acceleration above the active
/// threshold is activity; failing that, one above the fidget threshold is
/// fidgeting; anything else is sedentary.
pub open spec fn activity_for(thresholds: Thresholds, motion_detected: bool, smoothed: nat)
    -> ActivityState {
    if motion_detected || smoothed > thresholds.active {
        ActivityState::Active
    } else if smoothed > thresholds.fidget {
        ActivityState::Fidget
    } else {
        ActivityState::Sedentary
    }
}

/// Whether a reading labelled `label` opens a new second: there was a reading
/// before it, and that one carried another label. The first reading of a
/// classifier opens none.
pub open spec fn opens_new_second(last_second: Option<Seq<char>>, label: Seq<char>) -> bool {
    match last_second {
        Some(previous) => previous != label,
        None => false,
    }
}

/// The timer rule. Within a second the timer stands still. On a new second
/// activity resets it, fidgeting leaves it, and a sedentary second adds one.
pub open spec fn timer_after(timer: nat, new_second: bool, activity: ActivityState) -> nat {
    if !new_second {
        timer
    } else {
        match activity {
            ActivityState::Active => 0,
            ActivityState::Fidget => timer,
            ActivityState::Sedentary => timer + 1,
        }
    }
}

/// What a classifier remembers between readings.
pub struct ClassifierState {
    /// The smoothing window, oldest sample first.
    pub window: Seq<u32>,
    /// The sedentary timer in seconds.
    pub timer: nat,
    /// The label of the reading seen last.
    pub last_second: Option<Seq<char>>,
}

/// The memory of a classifier that has seen nothing.
pub open spec fn fresh() -> ClassifierState {
    ClassifierState { window: Seq::empty(), timer: 0, last_second: None }
}

/// The memory after one more reading.
pub open spec fn step(thresholds: Thresholds, before: ClassifierState, reading: RawReading)
    -> ClassifierState {
    let window = recent(before.window.push(reading.acceleration));
    let activity = activity_for(thresholds, reading.motion_detected, mean(window));
    ClassifierState {
        window,
        timer: timer_after(
            before.timer,
            opens_new_second(before.last_second, reading.ts@),
            activity,
        ),
        last_second: Some(reading.ts@),
    }
}

/// The memory after a run of readings, taken in order.
pub open spec fn run(thresholds: Thresholds, start: ClassifierState, readings: Seq<RawReading>)
    -> ClassifierState
    decreases readings.len(),
{
    if readings.len() == 0 {
        start
    } else {
        step(thresholds, run(thresholds, start, readings.drop_last()), readings.last())
    }
}

/// Whether `state` is what the classifier reports of `reading`, given its
/// memory before the reading and the instant of observation. Every field of
/// `state` is fixed by this.
pub open spec fn reports(
    state: ClassifiedState,
    thresholds: Thresholds,
    before: ClassifierState,
    reading: RawReading,
    observed_at: NaiveDateTime,
) -> bool {
    let after = step(thresholds, before, reading);
    &&& state.smoothed_acceleration == mean(after.window)
    &&& state.activity_state == activity_for(
        thresholds,
        reading.motion_detected,
        mean(after.window),
    )
    &&& state.sedentary_timer_seconds == after.timer
    &&& state.alert_triggered == (after.timer >= thresholds.alert_limit_seconds)
    &&& state.observed_at_utc == observed_at
}

/// The accelerations of a run of readings.
pub open spec fn accelerations(readings: Seq<RawReading>) -> Seq<u32> {
    readings.map_values(|reading: RawReading| reading.acceleration)
}

/// A sum never exceeds the number of samples times the largest `u32`.
pub proof fn lemma_total_bound(samples: Seq<u32>)
    ensures
        total(samples) <= samples.len() * u32::MAX,
    decreases samples.len(),
{
    if samples.len() > 0 {
        lemma_total_bound(samples.drop_last());
        assert((samples.len() - 1) * u32::MAX + u32::MAX == samples.len() * u32::MAX)
            by (nonlinear_arith);
    }
}

/// The mean of `u32` samples is a `u32`, and it is the arithmetic mean
/// rounded down: the sum lies between the mean and the mean plus one, each
/// times the number of samples.
pub proof fn lemma_mean_bounds(samples: Seq<u32>)
    ensures
        mean(samples) <= u32::MAX,
        samples.len() > 0 ==> mean(samples) * samples.len() <= total(samples) < (mean(samples)
            + 1) * samples.len(),
{
    lemma_total_bound(samples);
    if samples.len() > 0 {
        let n = samples.len() as int;
        let t = total(samples) as int;
        assert(t / n <= u32::MAX && (t / n) * n <= t < (t / n + 1) * n) by (nonlinear_arith)
            requires
                n > 0,
                0 <= t <= n * u32::MAX,
        ;
    }
}

/// The smoothing window: the most recent samples, oldest first, never more
/// than `SMOOTHING_WINDOW` of them.
pub struct SmoothingWindow {
    samples: VecDeque<u32>,
}

impl View for SmoothingWindow {
    type V = Seq<u32>;

    closed spec fn view(&self) -> Seq<u32> {
        self.samples@
    }
}

impl SmoothingWindow {
    #[verifier::type_invariant]
    spec fn fits(&self) -> bool {
        self.samples@.len() <= SMOOTHING_WINDOW
    }

    /// An empty window.
    pub fn new() -> (window: SmoothingWindow)
        ensures
            window@ == Seq::<u32>::empty(),
    {
        SmoothingWindow { samples: VecDeque::with_capacity(SMOOTHING_WINDOW) }
    }

    /// Number of samples held.
    pub fn len(&self) -> (len: usize)
        ensures
            len == self@.len(),
            len <= SMOOTHING_WINDOW,
    {
        proof {
            use_type_invariant(self);
        }
        self.samples.len()
    }

    /// Adds a sample at the newest end; a full window first drops its oldest.
    pub fn push(&mut self, sample: u32)
        ensures
            final(self)@ == recent(old(self)@.push(sample)),
    {
        proof {
            use_type_invariant(&*self);
        }
        let mut samples: VecDeque<u32> = VecDeque::new();
        core::mem::swap(&mut self.samples, &mut samples);
        if samples.len() >= SMOOTHING_WINDOW {
            samples.pop_front();
        }
        samples.push_back(sample);
        assert(samples@ == recent(old(self)@.push(sample)));
        self.samples = samples;
    }

    /// Mean of the samples, rounded down; 0 for an empty window.
    pub fn mean(&self) -> (smoothed: u32)
        ensures
            smoothed == mean(self@),
    {
        proof {
            use_type_invariant(self);
            lemma_mean_bounds(self.samples@);
        }
        let len = self.samples.len();
        if len == 0 {
            return 0;
        }
        let mut sum: u64 = 0;
        let mut i: usize = 0;
        while i < len
            invariant
                i <= len,
                len == self.samples@.len(),
                len <= SMOOTHING_WINDOW,
                sum == total(self.samples@.take(i as int)),
                sum <= i * u32::MAX,
            decreases len - i,
        {
            let sample: u32 = self.samples[i];
            proof {
                let upto = self.samples@.take(i + 1);
                assert(upto.drop_last() == self.samples@.take(i as int));
                assert(upto.last() == sample);
                assert(i * u32::MAX + u32::MAX == (i + 1) * u32::MAX) by (nonlinear_arith);
            }
            sum = sum + sample as u64;
            i = i + 1;
        }
        proof {
            assert(self.samples@.take(len as int) == self.samples@);
        }
        (sum / len as u64) as u32
    }
}

/// A classifier: the smoothing window, the sedentary timer and the label seen
/// last. Each source that classifies raw readings owns one.
pub struct Classifier {
    thresholds: Thresholds,
    window: SmoothingWindow,
    timer: u64,
    last_second: Option<String>,
}

impl View for Classifier {
    type V = ClassifierState;

    closed spec fn view(&self) -> ClassifierState {
        ClassifierState {
            window: self.window@,
            timer: self.timer as nat,
            last_second: match self.last_second {
                Some(label) => Some(label@),
                None => None,
            },
        }
    }
}

impl Classifier {
    /// The thresholds that this classifier was made with.
    pub closed spec fn thresholds(&self) -> Thresholds {
        self.thresholds
    }

    /// A classifier that has seen nothing.
    pub fn new(thresholds: Thresholds) -> (classifier: Classifier)
        ensures
            classifier@ == fresh(),
            classifier.thresholds() == thresholds,
    {
        Classifier { thresholds, window: SmoothingWindow::new(), timer: 0, last_second: None }
    }

    /// The sedentary timer, in seconds.
    pub fn sedentary_timer_seconds(&self) -> (timer: u64)
        ensures
            timer == self@.timer,
    {
        self.timer
    }

    /// Mean of the window, rounded down; 0 while the window is empty.
    pub fn smoothed_acceleration(&self) -> (smoothed: u32)
        ensures
            smoothed == mean(self@.window),
    {
        self.window.mean()
    }

    /// Takes one reading: pushes its acceleration into the window, dropping
    /// the oldest sample of a full window, applies the activity rule to the
    /// new mean and the timer rule to the result, and reports the outcome
    /// with `observed_at` as its instant.
    pub fn classify(&mut self, reading: &RawReading, observed_at: NaiveDateTime) -> (state:
        ClassifiedState)
        requires
            old(self)@.timer < u64::MAX,
        ensures
            final(self)@ == step(old(self).thresholds(), old(self)@, *reading),
            final(self).thresholds() == old(self).thresholds(),
            reports(state, old(self).thresholds(), old(self)@, *reading, observed_at),
    {
        self.window.push(reading.acceleration);
        let smoothed = self.window.mean();
        let activity = classify_state(&self.thresholds, reading.motion_detected, smoothed);
        let new_second = match &self.last_second {
            Some(label) => !(*label == reading.ts),
            None => false,
        };
        self.last_second = Some(reading.ts.clone());
        if new_second {
            match activity {
                ActivityState::Active => {
                    self.timer = 0;
                },
                ActivityState::Fidget => {},
                ActivityState::Sedentary => {
                    self.timer = self.timer + 1;
                },
            }
        }
        ClassifiedState {
            activity_state: activity,
            sedentary_timer_seconds: self.timer,
            smoothed_acceleration: smoothed,
            alert_triggered: self.timer >= self.thresholds.alert_limit_seconds,
            observed_at_utc: observed_at,
        }
    }

    /// Takes one reading as `classify` does, with the instant that the clock
    /// and the reading's label give: the labelled time on today's date, or
    /// the current instant where the label is no time of day.
    pub fn classify_now(&mut self, reading: &RawReading) -> (state: ClassifiedState)
        requires
            old(self)@.timer < u64::MAX,
        ensures
            final(self)@ == step(old(self).thresholds(), old(self)@, *reading),
            final(self).thresholds() == old(self).thresholds(),
            reports(state, old(self).thresholds(), old(self)@, *reading, state.observed_at_utc),
            exists|now: NaiveDateTime|
                state.observed_at_utc == observation_time(reading.ts@, now),
    {
        let now = utc_now();
        let at = observed_at(reading.ts.as_str(), now);
        assert(at == observation_time(reading.ts@, now));
        self.classify(reading, at)
    }

    /// Takes a run of readings in order, all of them observed while the clock
    /// reads `now`, and reports one state for each.
    pub fn classify_all(&mut self, readings: &Vec<RawReading>, now: NaiveDateTime) -> (states: Vec<
        ClassifiedState,
    >)
        requires
            old(self)@.timer + readings.len() <= u64::MAX,
        ensures
            final(self).thresholds() == old(self).thresholds(),
            final(self)@ == run(old(self).thresholds(), old(self)@, readings@),
            states.len() == readings.len(),
            forall|i: int|
                0 <= i < readings.len() ==> reports(
                    #[trigger] states[i],
                    old(self).thresholds(),
                    run(old(self).thresholds(), old(self)@, readings@.take(i)),
                    readings[i],
                    observation_time(readings[i].ts@, now),
                ),
    {
        let ghost thresholds = self.thresholds();
        let ghost start = self@;
        let mut states: Vec<ClassifiedState> = Vec::with_capacity(readings.len());
        let mut done: usize = 0;
        proof {
            assert(readings@.take(0) == Seq::<RawReading>::empty());
        }
        while done < readings.len()
            invariant
                done <= readings.len(),
                start.timer + readings.len() <= u64::MAX,
                self.thresholds() == thresholds,
                self@ == run(thresholds, start, readings@.take(done as int)),
                states.len() == done,
                forall|i: int|
                    0 <= i < done ==> reports(
                        #[trigger] states[i],
                        thresholds,
                        run(thresholds, start, readings@.take(i)),
                        readings[i],
                        observation_time(readings[i].ts@, now),
                    ),
            decreases readings.len() - done,
        {
            let reading = &readings[done];
            proof {
                lemma_run_timer_bound(thresholds, start, readings@.take(done as int));
                lemma_run_take(thresholds, start, readings@, done as int);
            }
            let at = observed_at(reading.ts.as_str(), now);
            let state = self.classify(reading, at);
            states.push(state);
            done = done + 1;
        }
        proof {
            assert(readings@.take(readings.len() as int) == readings@);
        }
        states
    }
}

/// The activity rule on a smoothed acceleration.
pub fn classify_state(thresholds: &Thresholds, motion_detected: bool, smoothed: u32) -> (activity:
    ActivityState)
    ensures
        activity == activity_for(*thresholds, motion_detected, smoothed as nat),
{
    if motion_detected || smoothed > thresholds.active {
        ActivityState::Active
    } else if smoothed > thresholds.fidget {
        ActivityState::Fidget
    } else {
        ActivityState::Sedentary
    }
}

/// A run of one reading more is the shorter run followed by one step.
pub proof fn lemma_run_take(
    thresholds: Thresholds,
    start: ClassifierState,
    readings: Seq<RawReading>,
    i: int,
)
    requires
        0 <= i < readings.len(),
    ensures
        run(thresholds, start, readings.take(i + 1)) == step(
            thresholds,
            run(thresholds, start, readings.take(i)),
            readings[i],
        ),
{
    assert(readings.take(i + 1).drop_last() == readings.take(i));
}

/// A run adds at most one second per reading to the timer.
pub proof fn lemma_run_timer_bound(
    thresholds: Thresholds,
    start: ClassifierState,
    readings: Seq<RawReading>,
)
    ensures
        run(thresholds, start, readings).timer <= start.timer + readings.len(),
    decreases readings.len(),
{
    if readings.len() > 0 {
        lemma_run_timer_bound(thresholds, start, readings.drop_last());
    }
}

/// Dropping to the recent samples before a push changes nothing: what a
/// window forgot could not have stayed.
pub proof fn lemma_recent_push(samples: Seq<u32>, sample: u32)
    ensures
        recent(recent(samples).push(sample)) == recent(samples.push(sample)),
        recent(samples).len() <= SMOOTHING_WINDOW,
{
    assert(recent(recent(samples).push(sample)) =~= recent(samples.push(sample)));
}

/// After any run of readings, a classifier that started with nothing holds in
/// its window the last `SMOOTHING_WINDOW` accelerations of the run, in order,
/// or all of them where the run is shorter.
pub proof fn lemma_window_holds_recent(thresholds: Thresholds, readings: Seq<RawReading>)
    ensures
        run(thresholds, fresh(), readings).window == recent(accelerations(readings)),
    decreases readings.len(),
{
    if readings.len() > 0 {
        let earlier = readings.drop_last();
        lemma_window_holds_recent(thresholds, earlier);
        lemma_recent_push(accelerations(earlier), readings.last().acceleration);
        assert(accelerations(readings) =~= accelerations(earlier).push(
            readings.last().acceleration,
        ));
    } else {
        assert(accelerations(readings) =~= Seq::<u32>::empty());
    }
}

/// The smoothed acceleration reported of the last reading of a run is the
/// mean of at most the last `SMOOTHING_WINDOW` accelerations of that run.
pub proof fn lemma_smoothed_is_recent_mean(
    thresholds: Thresholds,
    readings: Seq<RawReading>,
    state: ClassifiedState,
    observed_at: NaiveDateTime,
)
    requires
        readings.len() > 0,
        reports(
            state,
            thresholds,
            run(thresholds, fresh(), readings.drop_last()),
            readings.last(),
            observed_at,
        ),
    ensures
        state.smoothed_acceleration == mean(recent(accelerations(readings))),
        recent(accelerations(readings)).len() <= SMOOTHING_WINDOW,
{
    lemma_window_holds_recent(thresholds, readings);
}

/// A reading with motion is reported as activity, whatever the smoothed
/// acceleration and the thresholds.
pub proof fn lemma_motion_is_active(
    thresholds: Thresholds,
    before: ClassifierState,
    reading: RawReading,
    state: ClassifiedState,
    observed_at: NaiveDateTime,
)
    requires
        reading.motion_detected,
        reports(state, thresholds, before, reading, observed_at),
    ensures
        state.activity_state == ActivityState::Active,
{
}

/// The timer moves only where the label changes: a reading that carries the
/// label of the reading before it leaves the timer as it was, and so does the
/// first reading of a classifier.
pub proof fn lemma_timer_still_within_second(
    thresholds: Thresholds,
    before: ClassifierState,
    reading: RawReading,
)
    ensures
        before.last_second == Some(reading.ts@) ==> step(thresholds, before, reading).timer
            == before.timer,
        before.last_second is None ==> step(thresholds, before, reading).timer == before.timer,
        step(thresholds, before, reading).timer != before.timer ==> opens_new_second(
            before.last_second,
            reading.ts@,
        ),
{
}

/// Any number of further readings within one second leave the timer where the
/// first reading of that second put it.
pub proof fn lemma_timer_ignores_repeats(
    thresholds: Thresholds,
    before: ClassifierState,
    first: RawReading,
    repeats: Seq<RawReading>,
)
    requires
        forall|i: int| 0 <= i < repeats.len() ==> (#[trigger] repeats[i]).ts@ == first.ts@,
    ensures
        run(thresholds, step(thresholds, before, first), repeats).timer == step(
            thresholds,
            before,
            first,
        ).timer,
        run(thresholds, step(thresholds, before, first), repeats).last_second == Some(first.ts@),
    decreases repeats.len(),
{
    if repeats.len() > 0 {
        lemma_timer_ignores_repeats(thresholds, before, first, repeats.drop_last());
    }
}

/// The alert is on exactly when the reported timer has reached the alert
/// limit.
pub proof fn lemma_alert_iff_limit_reached(
    thresholds: Thresholds,
    before: ClassifierState,
    reading: RawReading,
    state: ClassifiedState,
    observed_at: NaiveDateTime,
)
    requires
        reports(state, thresholds, before, reading, observed_at),
    ensures
        state.alert_triggered <==> state.sedentary_timer_seconds
            >= thresholds.alert_limit_seconds,
{
}

/// The activity that the classifier reports of `reading`, given its memory
/// before the reading.
pub open spec fn activity_of(thresholds: Thresholds, before: ClassifierState, reading: RawReading)
    -> ActivityState {
    activity_for(
        thresholds,
        reading.motion_detected,
        mean(recent(before.window.push(reading.acceleration))),
    )
}

/// Number of readings of a run that open a new second and are classified as
/// sedentary: the sedentary seconds of the run.
pub open spec fn sedentary_seconds(
    thresholds: Thresholds,
    start: ClassifierState,
    readings: Seq<RawReading>,
) -> nat
    decreases readings.len(),
{
    if readings.len() == 0 {
        0
    } else {
        let before = run(thresholds, start, readings.drop_last());
        let earlier = sedentary_seconds(thresholds, start, readings.drop_last());
        if opens_new_second(before.last_second, readings.last().ts@) && activity_of(
            thresholds,
            before,
            readings.last(),
        ) == ActivityState::Sedentary {
            earlier + 1
        } else {
            earlier
        }
    }
}

/// Whether some reading of a run opens a new second and is classified as
/// activity: whether the run holds an active second.
pub open spec fn has_active_second(
    thresholds: Thresholds,
    start: ClassifierState,
    readings: Seq<RawReading>,
) -> bool
    decreases readings.len(),
{
    if readings.len() == 0 {
        false
    } else {
        let before = run(thresholds, start, readings.drop_last());
        has_active_second(thresholds, start, readings.drop_last()) || (opens_new_second(
            before.last_second,
            readings.last().ts@,
        ) && activity_of(thresholds, before, readings.last()) == ActivityState::Active)
    }
}

/// The timer counts the sedentary seconds since the last active second: over
/// a run without an active second it grows by the run's sedentary seconds,
/// and a reading that opens an active second puts it to 0, so that after such
/// a reading and a run without another the timer is the number of sedentary
/// seconds of that run.
pub proof fn lemma_timer_counts_sedentary_seconds(
    thresholds: Thresholds,
    start: ClassifierState,
    readings: Seq<RawReading>,
)
    requires
        !has_active_second(thresholds, start, readings),
    ensures
        run(thresholds, start, readings).timer == start.timer + sedentary_seconds(
            thresholds,
            start,
            readings,
        ),
    decreases readings.len(),
{
    if readings.len() > 0 {
        lemma_timer_counts_sedentary_seconds(thresholds, start, readings.drop_last());
    }
}

/// After a reading that opens an active second and any run without another,
/// the timer is the number of sedentary seconds of that run.
pub proof fn lemma_timer_since_active_second(
    thresholds: Thresholds,
    before: ClassifierState,
    active: RawReading,
    readings: Seq<RawReading>,
)
    requires
        opens_new_second(before.last_second, active.ts@),
        activity_of(thresholds, before, active) == ActivityState::Active,
        !has_active_second(thresholds, step(thresholds, before, active), readings),
    ensures
        run(thresholds, step(thresholds, before, active), readings).timer == sedentary_seconds(
            thresholds,
            step(thresholds, before, active),
            readings,
        ),
{
    lemma_timer_counts_sedentary_seconds(thresholds, step(thresholds, before, active), readings);
}

} // verus!
