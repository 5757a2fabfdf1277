//! Decisions of the supervisor loop: configuration commands, attempt
//! verdicts, cool-down and the status shown in the tray.

use vstd::prelude::*;
use crate::config::{
    AppConfig, CpuCoverage, DisturbanceParams, Language, ParamEdit, Profile, config_valid, default_config,
    edit_in_bounds, edited, edits_keep_config_valid, preset_selection_keeps_config_valid, presets_and_default_are_valid,
};
use crate::heuristic::{AttemptOutcome, AttemptTracker, fresh_tracker};

pub mod state;

verus! {

/// Poll interval while no attempt runs, in nanoseconds (250 ms).
pub const IDLE_POLL_NANOS: u128 = 250_000_000;
/// Poll interval during an attempt, in nanoseconds (100 ms).
pub const ACTIVE_POLL_NANOS: u128 = 100_000_000;
/// Interval between CPU samples in the log, in nanoseconds (1 s).
pub const CPU_LOG_INTERVAL_NANOS: u128 = 1_000_000_000;
/// Longest cool-down after an attempt, in nanoseconds (5 s).
pub const COOLDOWN_NANOS: u128 = 5_000_000_000;
/// A VRChat process older than this at the first scan was already running
/// before the application started and is left alone.
pub const ALREADY_RUNNING_SECS: u64 = 15;

/// A request from the tray to the supervisor.
#[derive(Debug, Clone, Copy, PartialEq, Eq, Structural)]
pub enum SupervisorCommand {
    SelectProfile(Profile),
    SetDuty(u8),
    SetDuration(u64),
    SetCoverage(CpuCoverage),
    SetLanguage(Language),
    ResetDefaults,
    OpenLogFolder,
    Shutdown,
}

/// The state shown by the tray.
#[derive(Debug, Clone, Copy, PartialEq, Eq, Structural)]
pub enum UiStatus {
    Waiting,
    Detected,
    Disturbing,
    Success,
    Failed,
    Unknown,
    ShuttingDown,
    ShutdownComplete,
}

/// What the supervisor sends to the tray.
#[derive(Debug, Clone, Copy, PartialEq, Eq)]
pub struct UiUpdate {
    pub status: UiStatus,
    pub config: AppConfig,
}

impl UiStatus {
    pub fn locale_key(&self) -> (key: &'static str)
        ensures
            key@ == match *self {
                UiStatus::Waiting => "status.waiting"@,
                UiStatus::Detected => "status.detected"@,
                UiStatus::Disturbing => "status.disturbing"@,
                UiStatus::Success => "status.success"@,
                UiStatus::Failed => "status.failed"@,
                UiStatus::Unknown => "status.unknown"@,
                UiStatus::ShuttingDown | UiStatus::ShutdownComplete => "status.shutting_down"@,
            },
    {
        match self {
            UiStatus::Waiting => "status.waiting",
            UiStatus::Detected => "status.detected",
            UiStatus::Disturbing => "status.disturbing",
            UiStatus::Success => "status.success",
            UiStatus::Failed => "status.failed",
            UiStatus::Unknown => "status.unknown",
            UiStatus::ShuttingDown | UiStatus::ShutdownComplete => "status.shutting_down",
        }
    }
}

impl UiStatus {
    /// The translation key of the status in the tray icon's tooltip.
    pub fn tooltip_key(&self) -> (key: &'static str)
        ensures
            key@ == match *self {
                UiStatus::Waiting => "tooltip.waiting"@,
                UiStatus::Detected => "tooltip.detected"@,
                UiStatus::Disturbing => "tooltip.disturbing"@,
                UiStatus::Success => "tooltip.success"@,
                UiStatus::Failed => "tooltip.failed"@,
                UiStatus::Unknown => "tooltip.unknown"@,
                UiStatus::ShuttingDown | UiStatus::ShutdownComplete => "tooltip.shutting_down"@,
            },
    {
        match self {
            UiStatus::Waiting => "tooltip.waiting",
            UiStatus::Detected => "tooltip.detected",
            UiStatus::Disturbing => "tooltip.disturbing",
            UiStatus::Success => "tooltip.success",
            UiStatus::Failed => "tooltip.failed",
            UiStatus::Unknown => "tooltip.unknown",
            UiStatus::ShuttingDown | UiStatus::ShutdownComplete => "tooltip.shutting_down",
        }
    }
}

/// The configuration after a command, and whether the command changes the
/// configuration at all.
pub open spec fn commanded(c: AppConfig, command: SupervisorCommand) -> (AppConfig, bool) {
    match command {
        SupervisorCommand::SelectProfile(p) => (AppConfig { profile: p, custom: None, ..c }, true),
        SupervisorCommand::SetDuty(d) => (edited(c, ParamEdit::Duty(d)), true),
        SupervisorCommand::SetDuration(h) => (edited(c, ParamEdit::HardStop(h)), true),
        SupervisorCommand::SetCoverage(cov) => (edited(c, ParamEdit::Coverage(cov)), true),
        SupervisorCommand::SetLanguage(l) => (AppConfig { language_override: Some(l), ..c }, true),
        SupervisorCommand::ResetDefaults => (default_config(), true),
        SupervisorCommand::OpenLogFolder | SupervisorCommand::Shutdown => (c, false),
    }
}

/// Applies a configuration command; returns whether it was one.
pub fn apply_config_command(config: &mut AppConfig, command: SupervisorCommand) -> (changed: bool)
    requires
        command matches SupervisorCommand::SelectProfile(p) ==> p != Profile::Custom,
    ensures
        (*final(config), changed) == commanded(*old(config), command),
{
    match command {
        SupervisorCommand::SelectProfile(profile) => config.select_profile(profile),
        SupervisorCommand::SetDuty(duty) => config.set_duty(duty),
        SupervisorCommand::SetDuration(duration) => config.set_hard_stop(duration),
        SupervisorCommand::SetCoverage(coverage) => config.set_coverage(coverage),
        SupervisorCommand::SetLanguage(language) => {
            config.language_override = Some(language);
        },
        SupervisorCommand::ResetDefaults => config.reset(),
        SupervisorCommand::OpenLogFolder | SupervisorCommand::Shutdown => {
            return false;
        },
    }
    true
}

/// A command that the tray menu can send: presets only, and advanced values
/// inside the validated bounds.
pub open spec fn command_in_bounds(command: SupervisorCommand) -> bool {
    match command {
        SupervisorCommand::SelectProfile(p) => p != Profile::Custom,
        SupervisorCommand::SetDuty(d) => edit_in_bounds(ParamEdit::Duty(d)),
        SupervisorCommand::SetDuration(h) => edit_in_bounds(ParamEdit::HardStop(h)),
        _ => true,
    }
}

/// Every command the tray can send keeps a valid configuration valid, so the
/// supervisor can always save it.
pub proof fn commands_keep_config_valid(c: AppConfig, command: SupervisorCommand)
    requires
        config_valid(c),
        command_in_bounds(command),
    ensures
        config_valid(commanded(c, command).0),
{
    presets_and_default_are_valid();
    match command {
        SupervisorCommand::SelectProfile(p) => preset_selection_keeps_config_valid(c, p),
        SupervisorCommand::SetDuty(d) => edits_keep_config_valid(c, ParamEdit::Duty(d)),
        SupervisorCommand::SetDuration(h) => edits_keep_config_valid(c, ParamEdit::HardStop(h)),
        SupervisorCommand::SetCoverage(cov) => edits_keep_config_valid(c, ParamEdit::Coverage(cov)),
        _ => {},
    }
}

/// What each command does to the configuration: a chosen profile becomes the
/// profile with its own parameters; a duty, hard stop or coverage becomes the
/// value in effect under a custom profile, the other settings kept; a
/// language becomes the override; a reset restores the defaults; opening the
/// log folder and shutting down change nothing and report no change.
pub proof fn commands_do_what_they_name(c: AppConfig, command: SupervisorCommand)
    ensures
        command matches SupervisorCommand::SelectProfile(p) ==> {
            &&& commanded(c, command).0.profile == p
            &&& crate::config::resolved(commanded(c, command).0) == crate::config::profile_params(p)
        },
        command matches SupervisorCommand::SetDuty(d) ==> {
            &&& commanded(c, command).0.profile == Profile::Custom
            &&& crate::config::resolved(commanded(c, command).0).duty_percent == d
            &&& crate::config::resolved(commanded(c, command).0).hard_stop_secs == crate::config::resolved(c).hard_stop_secs
            &&& crate::config::resolved(commanded(c, command).0).coverage == crate::config::resolved(c).coverage
        },
        command matches SupervisorCommand::SetDuration(h) ==> {
            &&& commanded(c, command).0.profile == Profile::Custom
            &&& crate::config::resolved(commanded(c, command).0).hard_stop_secs == h
            &&& crate::config::resolved(commanded(c, command).0).duty_percent == crate::config::resolved(c).duty_percent
            &&& (h >= 20 ==> 20 <= crate::config::resolved(commanded(c, command).0).success_after_secs <= h)
        },
        command matches SupervisorCommand::SetCoverage(cov) ==> {
            &&& commanded(c, command).0.profile == Profile::Custom
            &&& crate::config::resolved(commanded(c, command).0).coverage == cov
            &&& crate::config::resolved(commanded(c, command).0).duty_percent == crate::config::resolved(c).duty_percent
        },
        command matches SupervisorCommand::SetLanguage(l) ==> {
            &&& commanded(c, command).0.language_override == Some(l)
            &&& commanded(c, command).0.profile == c.profile
            &&& commanded(c, command).0.custom == c.custom
        },
        command == SupervisorCommand::ResetDefaults ==> commanded(c, command).0 == default_config(),
        (command == SupervisorCommand::OpenLogFolder || command == SupervisorCommand::Shutdown)
            ==> commanded(c, command) == (c, false),
        !(command == SupervisorCommand::OpenLogFolder || command == SupervisorCommand::Shutdown)
            ==> commanded(c, command).1,
{
}

/// How long to wait for a command before the next poll.
pub fn poll_interval(attempt_active: bool) -> (nanos: u128)
    ensures
        nanos == if attempt_active { ACTIVE_POLL_NANOS } else { IDLE_POLL_NANOS },
{
    if attempt_active { ACTIVE_POLL_NANOS } else { IDLE_POLL_NANOS }
}

/// The cool-down after an attempt ends once the watched process is gone (or
/// there was none) or after five seconds. `pid_alive` is whether the process
/// still exists, for a cool-down that watches one.
pub fn cooldown_complete(watched: Option<u32>, pid_alive: bool, elapsed: u128) -> (done: bool)
    ensures
        done == ((watched is None || !pid_alive) || elapsed >= COOLDOWN_NANOS),
{
    let gone = match watched {
        None => true,
        Some(_) => !pid_alive,
    };
    gone || elapsed >= COOLDOWN_NANOS
}

/// The verdict of a running attempt: the tracker's verdict when VRChat is
/// bound, and an unknown timeout once the session deadline has passed
/// without one.
pub open spec fn running_verdict(observed: Option<AttemptOutcome>, past_deadline: bool) -> Option<AttemptOutcome> {
    match observed {
        Some(o) => Some(o),
        None => if past_deadline { Some(AttemptOutcome::UnknownTimeout) } else { None },
    }
}

pub fn attempt_verdict(observed: Option<AttemptOutcome>, past_deadline: bool) -> (verdict: Option<AttemptOutcome>)
    ensures
        verdict == running_verdict(observed, past_deadline),
{
    match observed {
        Some(outcome) => Some(outcome),
        None => {
            if past_deadline {
                Some(AttemptOutcome::UnknownTimeout)
            } else {
                None
            }
        },
    }
}

/// A worker panic turns any verdict into an internal error.
pub fn final_outcome(outcome: AttemptOutcome, panics: usize) -> (r: AttemptOutcome)
    ensures
        r == if panics > 0 { AttemptOutcome::InternalError } else { outcome },
{
    if panics > 0 { AttemptOutcome::InternalError } else { outcome }
}

/// The tray status of a finished attempt.
pub open spec fn outcome_status(outcome: AttemptOutcome) -> UiStatus {
    match outcome {
        AttemptOutcome::SuccessHeuristic => UiStatus::Success,
        AttemptOutcome::UnknownTimeout => UiStatus::Unknown,
        _ => UiStatus::Failed,
    }
}

pub fn status_for_outcome(outcome: AttemptOutcome) -> (status: UiStatus)
    ensures
        status == outcome_status(outcome),
{
    match outcome {
        AttemptOutcome::SuccessHeuristic => UiStatus::Success,
        AttemptOutcome::UnknownTimeout => UiStatus::Unknown,
        _ => UiStatus::Failed,
    }
}

/// At the first scan, a VRChat process that has run for more than fifteen
/// seconds was started before this application and is not disturbed.
pub fn already_running(first_scan: bool, vrchat_run_time_secs: Option<u64>) -> (r: bool)
    ensures
        r == (first_scan && (vrchat_run_time_secs matches Some(t) && t > ALREADY_RUNNING_SECS)),
{
    if !first_scan {
        return false;
    }
    match vrchat_run_time_secs {
        Some(t) => t > ALREADY_RUNNING_SECS,
        None => false,
    }
}

/// An attempt attaches late when VRChat was already running when it started.
pub fn late_attach(vrchat_run_time_secs: Option<u64>) -> (r: bool)
    ensures
        r == (vrchat_run_time_secs matches Some(t) && t > 0),
{
    match vrchat_run_time_secs {
        Some(t) => t > 0,
        None => false,
    }
}

/// Nanoseconds in `secs` seconds.
pub open spec fn secs_to_nanos(secs: u64) -> u128 {
    (secs * 1_000_000_000) as u128
}

/// The tracker of an attempt that just bound VRChat, with the attempt's
/// thresholds converted to nanoseconds.
pub fn tracker_for(params: &DisturbanceParams) -> (t: AttemptTracker)
    ensures
        t == fresh_tracker(secs_to_nanos(params.success_after_secs), secs_to_nanos(params.hard_stop_secs)),
{
    AttemptTracker::new(
        (params.success_after_secs as u128) * 1_000_000_000,
        (params.hard_stop_secs as u128) * 1_000_000_000,
    )
}

/// Whether a CPU sample is due.
pub fn cpu_sample_due(since_last_log: u128) -> (r: bool)
    ensures
        r == (since_last_log >= CPU_LOG_INTERVAL_NANOS),
{
    since_last_log >= CPU_LOG_INTERVAL_NANOS
}

/// The tray shows success only for a success verdict of an attempt whose
/// workers all finished normally, and an unknown result only for a timeout;
/// every other verdict shows as a failure.
pub proof fn success_shown_only_for_clean_success(outcome: AttemptOutcome, panics: usize)
    ensures
        outcome_status(if panics > 0 { AttemptOutcome::InternalError } else { outcome }) == UiStatus::Success
            <==> (outcome == AttemptOutcome::SuccessHeuristic && panics == 0),
        outcome_status(if panics > 0 { AttemptOutcome::InternalError } else { outcome }) == UiStatus::Failed
            <==> (panics > 0 || crate::heuristic::outcome_is_failure(outcome)),
{
}

/// Once the session deadline has passed every running attempt is decided,
/// and a verdict of the tracker is never replaced.
pub proof fn deadline_always_decides(observed: Option<AttemptOutcome>, past_deadline: bool)
    ensures
        past_deadline ==> running_verdict(observed, past_deadline) is Some,
        observed is Some ==> running_verdict(observed, past_deadline) == observed,
        running_verdict(observed, past_deadline) is None ==> (observed is None && !past_deadline),
{
}

} // verus!
