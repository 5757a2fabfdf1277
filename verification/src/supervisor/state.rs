//! The supervisor loop as a state machine: what it remembers between polls,
//! and how each command and each poll result changes it. The loop itself
//! (waiting, the process table, the worker threads, the log) runs outside the
//! library and reports back through these transitions.

use vstd::prelude::*;
use crate::config::{AppConfig, DisturbanceParams, Profile, config_valid, resolved};
use crate::heuristic::{AttemptOutcome, AttemptTracker, Observation, fresh_tracker, observe_step};
use super::{
    ACTIVE_POLL_NANOS, IDLE_POLL_NANOS, SupervisorCommand, UiStatus, already_running, apply_config_command,
    attempt_verdict, command_in_bounds, commanded, commands_keep_config_valid, cooldown_complete, final_outcome,
    late_attach, outcome_status, running_verdict, secs_to_nanos, status_for_outcome, tracker_for,
};

verus! {

/// The attempt in progress, as far as its decisions go.
#[derive(Debug)]
pub struct AttemptState {
    pub id: u64,
    pub params: DisturbanceParams,
    pub late_attach: bool,
    /// The VRChat process bound to the attempt, once there is one.
    pub vrchat: Option<u32>,
    /// Present exactly when VRChat is bound.
    pub tracker: Option<AttemptTracker>,
}

/// Everything the supervisor loop decides on.
#[derive(Debug)]
pub struct SupervisorState {
    pub status: UiStatus,
    pub config: AppConfig,
    /// No scan of the process table has been made yet.
    pub first_scan: bool,
    pub active: Option<AttemptState>,
    /// A cool-down after an attempt, with the process it waits for.
    pub cooldown: Option<Option<u32>>,
    pub next_attempt_id: u64,
    /// The loop goes on; false after a shutdown or a lost command channel.
    pub running: bool,
}

/// What a poll does about the cool-down.
#[derive(Debug, Clone, Copy, PartialEq, Eq, Structural)]
pub enum CooldownGate {
    /// There was no cool-down: go on with the poll.
    Open,
    /// The cool-down just ended and the status is back to waiting: show it,
    /// then go on with the poll.
    Ended,
    /// Still cooling down: the poll ends here.
    Closed,
}

/// What to do about a trigger found in the process table.
#[derive(Debug, Clone, Copy, PartialEq, Eq, Structural)]
pub enum TriggerDecision {
    /// VRChat was already running when the application started: ignore it
    /// and its trigger.
    AlreadyRunning,
    /// Start a disturbance session with these parameters for attempt `id`.
    Start { id: u64, params: DisturbanceParams },
}

/// The state when the loop starts.
pub open spec fn initial_state(config: AppConfig) -> SupervisorState {
    SupervisorState {
        status: UiStatus::Waiting,
        config,
        first_scan: true,
        active: None,
        cooldown: None,
        next_attempt_id: 1,
        running: true,
    }
}

/// The statuses that an ended attempt leaves on display.
pub open spec fn is_attempt_result(status: UiStatus) -> bool {
    status == UiStatus::Success || status == UiStatus::Unknown || status == UiStatus::Failed
}

/// An attempt is consistent when its id was handed out, and its tracker exists
/// exactly when VRChat is bound and uses the attempt's thresholds.
pub open spec fn attempt_consistent(a: AttemptState, next_attempt_id: u64) -> bool {
    &&& a.id < next_attempt_id
    &&& (a.vrchat is Some <==> a.tracker is Some)
    &&& a.tracker matches Some(t) ==> {
        &&& t.success_after == secs_to_nanos(a.params.success_after_secs)
        &&& t.hard_stop == secs_to_nanos(a.params.hard_stop_secs)
    }
}

/// What holds of the supervisor at every poll while the loop runs: the
/// configuration can be saved; "disturbing" is shown exactly while an attempt
/// runs; an attempt and a cool-down never overlap; and a cool-down follows an
/// attempt's result.
pub open spec fn supervisor_inv(s: SupervisorState) -> bool {
    &&& config_valid(s.config)
    &&& s.next_attempt_id >= 1
    &&& s.running ==> {
        &&& (s.active is Some <==> s.status == UiStatus::Disturbing)
        &&& s.active matches Some(a) ==> attempt_consistent(a, s.next_attempt_id) && s.cooldown is None
        &&& s.cooldown is Some ==> is_attempt_result(s.status)
    }
    &&& !s.running ==> s.active is None
}

/// The state and gate after a cool-down check.
pub open spec fn cooldown_step(s: SupervisorState, watched_alive: bool, elapsed: u128) -> (SupervisorState, CooldownGate) {
    match s.cooldown {
        None => (s, CooldownGate::Open),
        Some(watched) => if (watched is None || !watched_alive) || elapsed >= super::COOLDOWN_NANOS {
            (SupervisorState { cooldown: None, status: UiStatus::Waiting, ..s }, CooldownGate::Ended)
        } else {
            (s, CooldownGate::Closed)
        },
    }
}

/// The attempt after one poll: the tracker sees the observation when VRChat
/// is bound and a sample was taken.
pub open spec fn observed_attempt(a: AttemptState, since_bound: u128, observation: Option<Observation>) -> (AttemptState, Option<AttemptOutcome>) {
    match (a.tracker, observation) {
        (Some(t), Some(o)) => {
            let (t2, verdict) = observe_step(t, since_bound, o);
            (AttemptState { tracker: Some(t2), ..a }, verdict)
        },
        _ => (a, None),
    }
}

impl SupervisorState {
    pub fn new(config: AppConfig) -> (s: Self)
        ensures
            s == initial_state(config),
    {
        SupervisorState {
            status: UiStatus::Waiting,
            config,
            first_scan: true,
            active: None,
            cooldown: None,
            next_attempt_id: 1,
            running: true,
        }
    }

    /// How long to wait for a command before the next poll.
    pub fn poll_interval(&self) -> (nanos: u128)
        ensures
            nanos == if self.active is Some { ACTIVE_POLL_NANOS } else { IDLE_POLL_NANOS },
    {
        super::poll_interval(self.active.is_some())
    }

    /// Applies a configuration command. When it returns true the new
    /// configuration is saved and shown.
    pub fn apply_command(&mut self, command: SupervisorCommand) -> (changed: bool)
        requires
            command matches SupervisorCommand::SelectProfile(p) ==> p != Profile::Custom,
        ensures
            (final(self).config, changed) == commanded(old(self).config, command),
            (SupervisorState { config: old(self).config, ..*final(self) }) == *old(self),
            supervisor_inv(*old(self)) && command_in_bounds(command) ==> supervisor_inv(*final(self)),
    {
        proof {
            if config_valid(self.config) && command_in_bounds(command) {
                commands_keep_config_valid(self.config, command);
            }
        }
        apply_config_command(&mut self.config, command)
    }

    /// A shutdown request: the status turns to "shutting down", the loop stops
    /// and the running attempt, if any, is handed back to be stopped.
    pub fn begin_shutdown(&mut self) -> (attempt: Option<AttemptState>)
        ensures
            attempt == old(self).active,
            *final(self) == (SupervisorState { status: UiStatus::ShuttingDown, active: None, running: false, ..*old(self) }),
            supervisor_inv(*old(self)) ==> supervisor_inv(*final(self)),
    {
        self.status = UiStatus::ShuttingDown;
        self.running = false;
        self.active.take()
    }

    /// The command channel is gone: the loop stops and the running attempt,
    /// if any, is handed back to be stopped as an internal error.
    pub fn disconnect(&mut self) -> (attempt: Option<AttemptState>)
        ensures
            attempt == old(self).active,
            *final(self) == (SupervisorState { active: None, running: false, ..*old(self) }),
            supervisor_inv(*old(self)) ==> supervisor_inv(*final(self)),
    {
        self.running = false;
        self.active.take()
    }

    /// Checks the cool-down at the start of a poll. `watched_alive` is whether
    /// the process the cool-down waits for still exists; `elapsed` is the time
    /// since the cool-down began, in nanoseconds.
    pub fn check_cooldown(&mut self, watched_alive: bool, elapsed: u128) -> (gate: CooldownGate)
        ensures
            (*final(self), gate) == cooldown_step(*old(self), watched_alive, elapsed),
            supervisor_inv(*old(self)) ==> supervisor_inv(*final(self)),
    {
        match self.cooldown {
            None => CooldownGate::Open,
            Some(watched) => {
                if cooldown_complete(watched, watched_alive, elapsed) {
                    self.cooldown = None;
                    self.status = UiStatus::Waiting;
                    CooldownGate::Ended
                } else {
                    CooldownGate::Closed
                }
            },
        }
    }

    /// Whether the running attempt still waits for a VRChat process.
    pub fn needs_vrchat(&self) -> (r: bool)
        ensures
            r == (self.active matches Some(a) && a.vrchat is None),
    {
        match &self.active {
            Some(attempt) => attempt.vrchat.is_none(),
            None => false,
        }
    }

    /// The VRChat process bound to the running attempt.
    pub fn bound_vrchat(&self) -> (pid: Option<u32>)
        ensures
            pid == match self.active {
                Some(a) => a.vrchat,
                None => None,
            },
    {
        match &self.active {
            Some(attempt) => attempt.vrchat,
            None => None,
        }
    }

    /// Binds VRChat process `pid` to the running attempt and starts its
    /// tracker with the attempt's thresholds.
    pub fn bind_vrchat(&mut self, pid: u32)
        requires
            old(self).active matches Some(a) && a.vrchat is None,
        ensures
            final(self).active matches Some(a) && {
                let before = old(self).active->0;
                &&& a.vrchat == Some(pid)
                &&& a.tracker == Some(fresh_tracker(
                    secs_to_nanos(before.params.success_after_secs),
                    secs_to_nanos(before.params.hard_stop_secs),
                ))
                &&& a.id == before.id && a.params == before.params && a.late_attach == before.late_attach
            },
            (SupervisorState { active: old(self).active, ..*final(self) }) == *old(self),
            supervisor_inv(*old(self)) ==> supervisor_inv(*final(self)),
    {
        let mut attempt = self.active.take().unwrap();
        attempt.tracker = Some(tracker_for(&attempt.params));
        attempt.vrchat = Some(pid);
        self.active = Some(attempt);
    }

    /// Feeds one poll to the running attempt: the observation of the bound
    /// VRChat process made `since_bound` nanoseconds after binding, and
    /// whether the session deadline has passed. Returns the attempt's verdict
    /// once it is decided; the attempt keeps running until it is concluded.
    pub fn observe_attempt(&mut self, since_bound: u128, observation: Option<&Observation>, past_deadline: bool) -> (verdict: Option<AttemptOutcome>)
        requires
            old(self).active is Some,
        ensures
            ({
                let (a, observed) = observed_attempt(
                    old(self).active->0,
                    since_bound,
                    match observation {
                        Some(o) => Some(*o),
                        None => None,
                    },
                );
                &&& final(self).active == Some(a)
                &&& verdict == running_verdict(observed, past_deadline)
            }),
            (SupervisorState { active: old(self).active, ..*final(self) }) == *old(self),
            supervisor_inv(*old(self)) ==> supervisor_inv(*final(self)),
    {
        let mut attempt = self.active.take().unwrap();
        let observed = match (&mut attempt.tracker, observation) {
            (Some(tracker), Some(o)) => tracker.observe(since_bound, o),
            _ => None,
        };
        self.active = Some(attempt);
        attempt_verdict(observed, past_deadline)
    }

    /// Ends the running attempt with `outcome` after its session stopped with
    /// `panics` panicked workers. The status shows the final outcome and a
    /// cool-down starts that waits for the attempt's VRChat process. Returns
    /// the final outcome and the ended attempt.
    pub fn conclude_attempt(&mut self, outcome: AttemptOutcome, panics: usize) -> (r: (AttemptOutcome, AttemptState))
        requires
            old(self).active is Some,
        ensures
            r.0 == (if panics > 0 { AttemptOutcome::InternalError } else { outcome }),
            r.1 == old(self).active->0,
            *final(self) == (SupervisorState {
                status: outcome_status(r.0),
                active: None,
                cooldown: Some(old(self).active->0.vrchat),
                ..*old(self)
            }),
            supervisor_inv(*old(self)) ==> supervisor_inv(*final(self)),
    {
        let attempt = self.active.take().unwrap();
        let outcome = final_outcome(outcome, panics);
        self.status = status_for_outcome(outcome);
        self.cooldown = Some(attempt.vrchat);
        (outcome, attempt)
    }

    /// A trigger appeared while nothing runs. `vrchat_run_time_secs` is how
    /// long the VRChat process found with it has run, if there is one.
    pub fn on_trigger(&mut self, vrchat_run_time_secs: Option<u64>) -> (d: TriggerDecision)
        requires
            old(self).active is None,
            old(self).cooldown is None,
        ensures
            old(self).first_scan && (vrchat_run_time_secs matches Some(t) && t > super::ALREADY_RUNNING_SECS) ==> {
                &&& d == TriggerDecision::AlreadyRunning
                &&& *final(self) == (SupervisorState { first_scan: false, ..*old(self) })
            },
            !(old(self).first_scan && (vrchat_run_time_secs matches Some(t) && t > super::ALREADY_RUNNING_SECS)) ==> {
                &&& d == (TriggerDecision::Start { id: old(self).next_attempt_id, params: resolved(old(self).config) })
                &&& *final(self) == (SupervisorState { first_scan: false, status: UiStatus::Detected, ..*old(self) })
            },
            supervisor_inv(*old(self)) ==> supervisor_inv(*final(self)),
    {
        let skip = already_running(self.first_scan, vrchat_run_time_secs);
        self.first_scan = false;
        if skip {
            TriggerDecision::AlreadyRunning
        } else {
            self.status = UiStatus::Detected;
            TriggerDecision::Start { id: self.next_attempt_id, params: self.config.resolved_params() }
        }
    }

    /// The disturbance session of the detected trigger started. `vrchat` is the
    /// VRChat process found with the trigger, with how long it has run; it is
    /// bound at once.
    pub fn attempt_started(&mut self, vrchat: Option<(u32, u64)>)
        requires
            old(self).running,
            old(self).active is None,
            old(self).cooldown is None,
            old(self).next_attempt_id < u64::MAX,
        ensures
            final(self).status == UiStatus::Disturbing,
            final(self).next_attempt_id == old(self).next_attempt_id + 1,
            final(self).active matches Some(a) && {
                let params = resolved(old(self).config);
                &&& a.id == old(self).next_attempt_id
                &&& a.params == params
                &&& a.late_attach == (vrchat matches Some(v) && v.1 > 0)
                &&& a.vrchat == (match vrchat {
                    Some(v) => Some(v.0),
                    None => None,
                })
                &&& a.tracker == (match vrchat {
                    Some(_) => Some(fresh_tracker(
                        secs_to_nanos(params.success_after_secs),
                        secs_to_nanos(params.hard_stop_secs),
                    )),
                    None => None,
                })
            },
            (SupervisorState {
                status: old(self).status,
                active: None,
                next_attempt_id: old(self).next_attempt_id,
                ..*final(self)
            }) == *old(self),
            supervisor_inv(*old(self)) ==> supervisor_inv(*final(self)),
    {
        let params = self.config.resolved_params();
        let run_time = match vrchat {
            Some(v) => Some(v.1),
            None => None,
        };
        let (pid, tracker) = match vrchat {
            Some(v) => (Some(v.0), Some(tracker_for(&params))),
            None => (None, None),
        };
        self.active = Some(AttemptState {
            id: self.next_attempt_id,
            params,
            late_attach: late_attach(run_time),
            vrchat: pid,
            tracker,
        });
        self.next_attempt_id = self.next_attempt_id + 1;
        self.status = UiStatus::Disturbing;
    }

    /// The disturbance session could not start: the attempt fails at once
    /// and a cool-down without a process to wait for begins.
    pub fn attempt_start_failed(&mut self)
        requires
            old(self).active is None,
        ensures
            *final(self) == (SupervisorState { status: UiStatus::Failed, cooldown: Some(None), ..*old(self) }),
            supervisor_inv(*old(self)) ==> supervisor_inv(*final(self)),
    {
        self.status = UiStatus::Failed;
        self.cooldown = Some(None);
    }

    /// A poll found no trigger.
    pub fn no_trigger(&mut self)
        ensures
            *final(self) == (SupervisorState { first_scan: false, ..*old(self) }),
            supervisor_inv(*old(self)) ==> supervisor_inv(*final(self)),
    {
        self.first_scan = false;
    }
}

/// A cool-down ends once it has lasted five seconds, whether or not the
/// watched process still runs; it ends earlier once that process is gone or
/// when it watches none; otherwise the poll stops there and nothing changes.
/// Without a cool-down the poll goes on and nothing changes.
pub proof fn cooldown_ends_after_five_seconds_or_when_the_process_is_gone(s: SupervisorState, watched_alive: bool, elapsed: u128)
    ensures
        s.cooldown is None ==> cooldown_step(s, watched_alive, elapsed) == (s, CooldownGate::Open),
        s.cooldown is Some && elapsed >= 5_000_000_000 ==> cooldown_step(s, watched_alive, elapsed)
            == (SupervisorState { cooldown: None, status: UiStatus::Waiting, ..s }, CooldownGate::Ended),
        s.cooldown is Some && (s.cooldown == Some(None::<u32>) || !watched_alive) ==> cooldown_step(s, watched_alive, elapsed)
            == (SupervisorState { cooldown: None, status: UiStatus::Waiting, ..s }, CooldownGate::Ended),
        (s.cooldown matches Some(Some(_)) && watched_alive && elapsed < 5_000_000_000) ==> cooldown_step(s, watched_alive, elapsed)
            == (s, CooldownGate::Closed),
{
}

/// A loop that starts from a valid configuration starts consistent.
pub proof fn initial_state_is_consistent(config: AppConfig)
    requires
        config_valid(config),
    ensures
        supervisor_inv(initial_state(config)),
{
}

} // verus!
