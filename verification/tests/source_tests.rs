use sedentary_tracker::activity::ActivityState;
use sedentary_tracker::classifier::RawReading;
use sedentary_tracker::classifier::Thresholds;
use sedentary_tracker::fallback::FallbackState;
use sedentary_tracker::source::FileReplay;
use sedentary_tracker::source::LiveSource;

fn reading(ts: &str, pir: i32, acceleration: u32) -> RawReading {
    RawReading::from_sensor(ts.to_string(), pir, acceleration)
}

#[test]
fn live_reading_ends_backfill() {
    let liveness = FallbackState::new();
    liveness.enter_fallback();
    let mut source = LiveSource::new(Thresholds::default());
    let first = source.ingest(&liveness, &reading("10:00:00", 0, 10_000));
    assert!(first.reconnected);
    assert!(!liveness.is_in_fallback());
    assert_eq!(first.state.activity_state, ActivityState::Sedentary);
    assert_eq!(first.state.sedentary_timer_seconds, 0);
    let second = source.ingest(&liveness, &reading("10:00:01", 0, 10_000));
    assert!(!second.reconnected);
    assert_eq!(second.state.sedentary_timer_seconds, 1);
    assert!(!second.state.alert_triggered);
    assert_eq!(source.sedentary_timer_seconds(), 1);
}

#[test]
fn file_replay_counts_and_leaves_liveness_alone() {
    let liveness = FallbackState::new();
    liveness.enter_fallback();
    let mut replay = FileReplay::new(Thresholds::default());
    assert_eq!(replay.count(), 0);
    let a = replay.emit(&reading("10:00:00", 0, 10_000));
    let b = replay.emit(&reading("10:00:01", 0, 10_000));
    assert_eq!(replay.count(), 2);
    assert_eq!(a.sedentary_timer_seconds, 0);
    assert_eq!(b.sedentary_timer_seconds, 1);
    assert_eq!(replay.sedentary_timer_seconds(), 1);
    assert!(liveness.is_in_fallback());
}

#[test]
fn sources_do_not_share_their_windows() {
    let liveness = FallbackState::new();
    let mut live = LiveSource::new(Thresholds::default());
    let mut replay = FileReplay::new(Thresholds::default());
    let loud = live.ingest(&liveness, &reading("10:00:00", 0, 1_000_000));
    assert_eq!(loud.state.activity_state, ActivityState::Active);
    let quiet = replay.emit(&reading("10:00:00", 0, 0));
    assert_eq!(quiet.smoothed_acceleration, 0);
    assert_eq!(quiet.activity_state, ActivityState::Sedentary);
}
