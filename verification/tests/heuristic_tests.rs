use std::time::Duration;

use vrchat_x3d_start_fix::heuristic::{AttemptOutcome, AttemptTracker, Observation};

fn nanos(secs: u64) -> u128 {
    Duration::from_secs(secs).as_nanos()
}

fn cpu_active(percent: f32) -> bool {
    percent > 0.01
}

fn healthy() -> Observation {
    Observation {
        process_exists: true,
        visible_window: true,
        cpu_active: cpu_active(1.0),
        ..Observation::default()
    }
}

#[test]
fn fatal_dialog_wins_immediately() {
    let mut tracker = AttemptTracker::new(nanos(45), nanos(60));
    let observation = Observation {
        process_exists: true,
        fatal_dialog: Some("Fatal Error in GC: SuspendThread Loop failed".into()),
        ..Observation::default()
    };
    assert_eq!(
        tracker.observe(nanos(2), &observation),
        Some(AttemptOutcome::FailedFatalDialog)
    );
    assert_eq!(tracker.fatal_match(), Some("Fatal Error in GC: SuspendThread Loop failed"));
}

#[test]
fn early_exit_is_failure() {
    let mut tracker = AttemptTracker::new(nanos(45), nanos(60));
    assert_eq!(
        tracker.observe(nanos(20), &Observation::default()),
        Some(AttemptOutcome::FailedEarlyExit)
    );
}

#[test]
fn success_needs_ten_responsive_seconds_and_cpu() {
    let mut tracker = AttemptTracker::new(nanos(45), nanos(60));
    assert_eq!(tracker.observe(nanos(34), &healthy()), None);
    assert_eq!(
        tracker.observe(nanos(45), &healthy()),
        Some(AttemptOutcome::SuccessHeuristic)
    );
}

#[test]
fn hung_window_reaches_unknown_timeout() {
    let mut tracker = AttemptTracker::new(nanos(40), nanos(50));
    let observation = Observation {
        process_exists: true,
        visible_window: true,
        window_hung: true,
        cpu_active: cpu_active(1.0),
        ..Observation::default()
    };
    assert_eq!(
        tracker.observe(nanos(50), &observation),
        Some(AttemptOutcome::UnknownTimeout)
    );
}

#[test]
fn werfault_and_late_exit() {
    let mut tracker = AttemptTracker::new(nanos(45), nanos(60));
    let observation = Observation { process_exists: true, werfault: true, ..Observation::default() };
    assert_eq!(tracker.observe(nanos(1), &observation), Some(AttemptOutcome::FailedWerFault));
    assert_eq!(tracker.observe(nanos(45), &Observation::default()), Some(AttemptOutcome::UnknownTimeout));
    assert_eq!(tracker.fatal_match(), None);
}

#[test]
fn success_needs_cpu_activity_and_resets_when_hung() {
    let mut tracker = AttemptTracker::new(nanos(45), nanos(60));
    let idle = Observation { cpu_active: cpu_active(0.0), ..healthy() };
    assert_eq!(tracker.observe(nanos(30), &idle), None);
    assert_eq!(tracker.observe(nanos(46), &idle), None);
    let hung = Observation { window_hung: true, ..healthy() };
    assert_eq!(tracker.observe(nanos(47), &hung), None);
    assert_eq!(tracker.observe(nanos(48), &healthy()), None);
    assert_eq!(tracker.observe(nanos(57), &healthy()), None);
    assert_eq!(tracker.observe(nanos(58), &healthy()), Some(AttemptOutcome::SuccessHeuristic));
}

#[test]
fn failure_classification() {
    assert!(!AttemptOutcome::SuccessHeuristic.is_failure());
    assert!(!AttemptOutcome::UnknownTimeout.is_failure());
    assert!(AttemptOutcome::FailedFatalDialog.is_failure());
    assert!(AttemptOutcome::FailedEarlyExit.is_failure());
    assert!(AttemptOutcome::FailedWerFault.is_failure());
    assert!(AttemptOutcome::InternalError.is_failure());
}

#[test]
fn fatal_match_keeps_the_last_fatal_dialog() {
    let mut tracker = AttemptTracker::new(nanos(45), nanos(60));
    assert_eq!(tracker.observe(nanos(1), &healthy()), None);
    assert_eq!(tracker.fatal_match(), None);
    let first = Observation {
        fatal_dialog: Some("Fatal Error in GC".to_string()),
        ..healthy()
    };
    assert_eq!(tracker.observe(nanos(2), &first), Some(AttemptOutcome::FailedFatalDialog));
    assert_eq!(tracker.observe(nanos(3), &healthy()), None);
    assert_eq!(tracker.fatal_match(), Some("Fatal Error in GC"));
    let second = Observation {
        fatal_dialog: Some("SuspendThread Loop failed".to_string()),
        ..healthy()
    };
    let _ = tracker.observe(nanos(4), &second);
    assert_eq!(tracker.fatal_match(), Some("SuspendThread Loop failed"));
    assert_eq!(tracker.fatal_match(), Some("SuspendThread Loop failed"));
}

#[test]
fn a_broken_responsive_streak_restarts_the_clock() {
    let mut tracker = AttemptTracker::new(nanos(20), nanos(60));
    assert_eq!(tracker.observe(nanos(0), &healthy()), None);
    let hidden = Observation { visible_window: false, ..healthy() };
    assert_eq!(tracker.observe(nanos(15), &hidden), None);
    assert_eq!(tracker.observe(nanos(16), &healthy()), None);
    assert_eq!(tracker.observe(nanos(25), &healthy()), None);
    assert_eq!(tracker.observe(nanos(26), &healthy()), Some(AttemptOutcome::SuccessHeuristic));
}
