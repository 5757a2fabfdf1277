use vrchat_x3d_start_fix::config::{AppConfig, CpuCoverage, Language, Profile};
use vrchat_x3d_start_fix::heuristic::{AttemptOutcome, Observation};
use vrchat_x3d_start_fix::supervisor::state::{CooldownGate, SupervisorState, TriggerDecision};
use vrchat_x3d_start_fix::supervisor::{
    already_running, apply_config_command, attempt_verdict, cooldown_complete, final_outcome, late_attach,
    poll_interval, status_for_outcome, tracker_for, SupervisorCommand, UiStatus,
};
use vrchat_x3d_start_fix::tray::{
    autostart_item_state, desired_autostart, icon_for_status, language_label, AutoStartPhase, StatusIcon,
};

#[test]
fn config_commands_change_the_config() {
    let mut config = AppConfig::default();
    assert!(apply_config_command(&mut config, SupervisorCommand::SetDuty(70)));
    assert_eq!(config.profile, Profile::Custom);
    assert!(apply_config_command(&mut config, SupervisorCommand::SetDuration(30)));
    assert_eq!(config.resolved_params().success_after_secs, 30);
    assert!(apply_config_command(&mut config, SupervisorCommand::SetCoverage(CpuCoverage::Unpinned)));
    assert!(apply_config_command(&mut config, SupervisorCommand::SetLanguage(Language::ZhCn)));
    assert_eq!(config.language_override, Some(Language::ZhCn));
    assert!(config.validate().is_ok());
    let before = config;
    assert!(!apply_config_command(&mut config, SupervisorCommand::OpenLogFolder));
    assert!(!apply_config_command(&mut config, SupervisorCommand::Shutdown));
    assert_eq!(config, before);
    assert!(apply_config_command(&mut config, SupervisorCommand::SelectProfile(Profile::Gentle)));
    assert_eq!(config.custom, None);
    assert!(apply_config_command(&mut config, SupervisorCommand::ResetDefaults));
    assert_eq!(config, AppConfig::default());
}

#[test]
fn verdicts_and_statuses() {
    assert_eq!(attempt_verdict(None, false), None);
    assert_eq!(attempt_verdict(None, true), Some(AttemptOutcome::UnknownTimeout));
    assert_eq!(attempt_verdict(Some(AttemptOutcome::SuccessHeuristic), true), Some(AttemptOutcome::SuccessHeuristic));
    assert_eq!(final_outcome(AttemptOutcome::SuccessHeuristic, 1), AttemptOutcome::InternalError);
    assert_eq!(final_outcome(AttemptOutcome::SuccessHeuristic, 0), AttemptOutcome::SuccessHeuristic);
    assert_eq!(status_for_outcome(AttemptOutcome::SuccessHeuristic), UiStatus::Success);
    assert_eq!(status_for_outcome(AttemptOutcome::UnknownTimeout), UiStatus::Unknown);
    assert_eq!(status_for_outcome(AttemptOutcome::FailedWerFault), UiStatus::Failed);
    assert_eq!(UiStatus::ShutdownComplete.locale_key(), "status.shutting_down");
    assert_eq!(UiStatus::Detected.locale_key(), "status.detected");
    assert_eq!(UiStatus::Waiting.tooltip_key(), "tooltip.waiting");
    assert_eq!(UiStatus::Unknown.tooltip_key(), "tooltip.unknown");
    assert_eq!(UiStatus::ShutdownComplete.tooltip_key(), "tooltip.shutting_down");
}

#[test]
fn loop_timing_and_first_scan() {
    assert_eq!(poll_interval(true), 100_000_000);
    assert_eq!(poll_interval(false), 250_000_000);
    assert!(cooldown_complete(None, true, 0));
    assert!(cooldown_complete(Some(7), false, 0));
    assert!(!cooldown_complete(Some(7), true, 4_999_999_999));
    assert!(cooldown_complete(Some(7), true, 5_000_000_000));
    assert!(already_running(true, Some(16)));
    assert!(!already_running(true, Some(15)));
    assert!(!already_running(false, Some(100)));
    assert!(late_attach(Some(1)));
    assert!(!late_attach(Some(0)));
    let tracker = tracker_for(&Profile::Robust.params());
    assert_eq!(tracker.success_after, 45_000_000_000);
    assert_eq!(tracker.hard_stop, 60_000_000_000);
}

#[test]
fn tray_presentation() {
    assert_eq!(icon_for_status(UiStatus::Disturbing), StatusIcon::Working);
    assert_eq!(icon_for_status(UiStatus::Unknown), StatusIcon::Attention);
    assert_eq!(icon_for_status(UiStatus::ShutdownComplete), StatusIcon::Ready);
    assert_eq!(language_label(Language::ZhCn), "中文");
    assert_eq!(autostart_item_state(AutoStartPhase::Applying), ("menu.autostart_confirming", false));
    assert_eq!(autostart_item_state(AutoStartPhase::Ready), ("menu.autostart", true));
    assert!(desired_autostart(None));
    assert!(!desired_autostart(Some(true)));
    assert!(desired_autostart(Some(false)));
}

fn healthy(cpu_active: bool) -> Observation {
    Observation {
        process_exists: true,
        fatal_dialog: None,
        werfault: false,
        visible_window: true,
        window_hung: false,
        cpu_active,
    }
}

#[test]
fn supervisor_runs_an_attempt_to_success_and_cools_down() {
    let mut state = SupervisorState::new(AppConfig::default());
    assert_eq!(state.status, UiStatus::Waiting);
    assert_eq!(state.poll_interval(), 250_000_000);
    assert_eq!(state.check_cooldown(false, 0), CooldownGate::Open);

    let decision = state.on_trigger(Some(0));
    assert_eq!(
        decision,
        TriggerDecision::Start { id: 1, params: Profile::Robust.params() }
    );
    assert_eq!(state.status, UiStatus::Detected);
    assert!(!state.first_scan);

    state.attempt_started(None);
    assert_eq!(state.status, UiStatus::Disturbing);
    assert_eq!(state.next_attempt_id, 2);
    assert_eq!(state.poll_interval(), 100_000_000);
    assert!(state.needs_vrchat());
    assert_eq!(state.bound_vrchat(), None);
    assert_eq!(state.observe_attempt(0, None, false), None);

    state.bind_vrchat(4242);
    assert!(!state.needs_vrchat());
    assert_eq!(state.bound_vrchat(), Some(4242));
    assert_eq!(state.observe_attempt(0, Some(&healthy(true)), false), None);
    assert_eq!(state.observe_attempt(44_000_000_000, Some(&healthy(false)), false), None);
    assert_eq!(
        state.observe_attempt(45_000_000_000, Some(&healthy(false)), false),
        Some(AttemptOutcome::SuccessHeuristic)
    );
    assert_eq!(state.status, UiStatus::Disturbing);

    let (outcome, attempt) = state.conclude_attempt(AttemptOutcome::SuccessHeuristic, 0);
    assert_eq!(outcome, AttemptOutcome::SuccessHeuristic);
    assert_eq!(attempt.id, 1);
    assert_eq!(attempt.vrchat, Some(4242));
    assert!(!attempt.late_attach);
    assert_eq!(state.status, UiStatus::Success);
    assert!(state.active.is_none());
    assert_eq!(state.cooldown, Some(Some(4242)));

    assert_eq!(state.check_cooldown(true, 1_000_000_000), CooldownGate::Closed);
    assert_eq!(state.status, UiStatus::Success);
    assert_eq!(state.check_cooldown(false, 1_000_000_000), CooldownGate::Ended);
    assert_eq!(state.status, UiStatus::Waiting);
    assert_eq!(state.cooldown, None);
}

#[test]
fn supervisor_leaves_an_already_running_vrchat_alone() {
    let mut state = SupervisorState::new(AppConfig::default());
    assert_eq!(state.on_trigger(Some(16)), TriggerDecision::AlreadyRunning);
    assert_eq!(state.status, UiStatus::Waiting);
    assert!(!state.first_scan);
    assert!(matches!(state.on_trigger(Some(16)), TriggerDecision::Start { id: 1, .. }));
}

#[test]
fn supervisor_first_scan_ends_without_trigger() {
    let mut state = SupervisorState::new(AppConfig::default());
    state.no_trigger();
    assert!(!state.first_scan);
    assert!(matches!(state.on_trigger(Some(100)), TriggerDecision::Start { .. }));
}

#[test]
fn supervisor_late_attach_binds_at_once_and_times_out() {
    let mut state = SupervisorState::new(AppConfig::default());
    state.no_trigger();
    let _ = state.on_trigger(Some(3));
    state.attempt_started(Some((77, 3)));
    let attempt = state.active.as_ref().unwrap();
    assert!(attempt.late_attach);
    assert_eq!(attempt.vrchat, Some(77));
    assert_eq!(attempt.tracker.as_ref().unwrap().hard_stop, 60_000_000_000);
    assert_eq!(
        state.observe_attempt(1_000_000_000, None, true),
        Some(AttemptOutcome::UnknownTimeout)
    );
    let (outcome, _) = state.conclude_attempt(AttemptOutcome::UnknownTimeout, 0);
    assert_eq!(outcome, AttemptOutcome::UnknownTimeout);
    assert_eq!(state.status, UiStatus::Unknown);
}

#[test]
fn supervisor_worker_panic_turns_success_into_failure() {
    let mut state = SupervisorState::new(AppConfig::default());
    let _ = state.on_trigger(None);
    state.attempt_started(None);
    let (outcome, attempt) = state.conclude_attempt(AttemptOutcome::SuccessHeuristic, 2);
    assert_eq!(outcome, AttemptOutcome::InternalError);
    assert_eq!(attempt.vrchat, None);
    assert_eq!(state.status, UiStatus::Failed);
    assert_eq!(state.cooldown, Some(None));
    assert_eq!(state.check_cooldown(true, 0), CooldownGate::Ended);
}

#[test]
fn supervisor_failed_start_and_commands() {
    let mut state = SupervisorState::new(AppConfig::default());
    let _ = state.on_trigger(None);
    state.attempt_start_failed();
    assert_eq!(state.status, UiStatus::Failed);
    assert_eq!(state.cooldown, Some(None));
    assert!(state.apply_command(SupervisorCommand::SetDuty(35)));
    assert_eq!(state.config.resolved_params().duty_percent, 35);
    assert_eq!(state.status, UiStatus::Failed);
    assert!(!state.apply_command(SupervisorCommand::OpenLogFolder));
}

#[test]
fn supervisor_shutdown_hands_back_the_attempt() {
    let mut state = SupervisorState::new(AppConfig::default());
    let _ = state.on_trigger(None);
    state.attempt_started(Some((9, 0)));
    let attempt = state.begin_shutdown().expect("an attempt was running");
    assert_eq!(attempt.id, 1);
    assert_eq!(state.status, UiStatus::ShuttingDown);
    assert!(!state.running);
    assert!(state.active.is_none());

    let mut other = SupervisorState::new(AppConfig::default());
    assert!(other.disconnect().is_none());
    assert!(!other.running);
    assert_eq!(other.status, UiStatus::Waiting);
}
