//! Classification of a VRChat start attempt from periodic observations.

use vstd::prelude::*;

verus! {

/// How an attempt ended.
#[derive(Debug, Clone, Copy, PartialEq, Eq, Structural)]
pub enum AttemptOutcome {
    SuccessHeuristic,
    FailedFatalDialog,
    FailedEarlyExit,
    FailedWerFault,
    UnknownTimeout,
    InternalError,
}

/// The outcomes that count as a failed start.
pub open spec fn outcome_is_failure(outcome: AttemptOutcome) -> bool {
    match outcome {
        AttemptOutcome::FailedFatalDialog
        | AttemptOutcome::FailedEarlyExit
        | AttemptOutcome::FailedWerFault
        | AttemptOutcome::InternalError => true,
        _ => false,
    }
}

impl AttemptOutcome {
    pub fn is_failure(self) -> (r: bool)
        ensures
            r == outcome_is_failure(self),
    {
        match self {
            AttemptOutcome::FailedFatalDialog
            | AttemptOutcome::FailedEarlyExit
            | AttemptOutcome::FailedWerFault
            | AttemptOutcome::InternalError => true,
            _ => false,
        }
    }
}

/// One sample of the watched VRChat process.
///
/// `cpu_active` records whether the process used more than 0.01 % of the CPU
/// in this sample.
#[derive(Debug, Clone, Default)]
pub struct Observation {
    pub process_exists: bool,
    pub fatal_dialog: Option<String>,
    pub werfault: bool,
    pub visible_window: bool,
    pub window_hung: bool,
    pub cpu_active: bool,
}

/// Ten seconds, in nanoseconds: how long a window must stay responsive.
pub const RESPONSIVE_NANOS: u128 = 10_000_000_000;

/// Tracks one attempt. Times are nanoseconds since VRChat was bound to the
/// attempt.
#[derive(Debug)]
pub struct AttemptTracker {
    pub success_after: u128,
    pub hard_stop: u128,
    pub responsive_since: Option<u128>,
    pub saw_cpu_activity: bool,
    pub fatal_match: Option<String>,
}

/// A tracker that has observed nothing yet.
pub open spec fn fresh_tracker(success_after: u128, hard_stop: u128) -> AttemptTracker {
    AttemptTracker {
        success_after,
        hard_stop,
        responsive_since: None,
        saw_cpu_activity: false,
        fatal_match: None,
    }
}

/// `a - b`, or zero when `b` is later.
pub open spec fn saturating_diff(a: int, b: int) -> int {
    if a >= b { a - b } else { 0 }
}

/// The tracker state and verdict after one observation at time `elapsed`.
pub open spec fn observe_step(t: AttemptTracker, elapsed: u128, o: Observation) -> (AttemptTracker, Option<AttemptOutcome>) {
    if o.fatal_dialog is Some {
        (AttemptTracker { fatal_match: o.fatal_dialog, ..t }, Some(AttemptOutcome::FailedFatalDialog))
    } else if o.werfault {
        (t, Some(AttemptOutcome::FailedWerFault))
    } else if !o.process_exists {
        (t, Some(if elapsed < t.success_after { AttemptOutcome::FailedEarlyExit } else { AttemptOutcome::UnknownTimeout }))
    } else {
        let saw = t.saw_cpu_activity || o.cpu_active;
        let since: Option<u128> = if o.visible_window && !o.window_hung {
            match t.responsive_since {
                Some(s) => Some(s),
                None => Some(elapsed),
            }
        } else {
            None
        };
        let next = AttemptTracker { saw_cpu_activity: saw, responsive_since: since, ..t };
        let long_enough = match since {
            Some(s) => saturating_diff(elapsed as int, s as int) >= RESPONSIVE_NANOS,
            None => false,
        };
        if elapsed >= t.success_after && long_enough && saw {
            (next, Some(AttemptOutcome::SuccessHeuristic))
        } else if elapsed >= t.hard_stop {
            (next, Some(AttemptOutcome::UnknownTimeout))
        } else {
            (next, None)
        }
    }
}

impl AttemptTracker {
    pub fn new(success_after: u128, hard_stop: u128) -> (t: Self)
        ensures
            t == fresh_tracker(success_after, hard_stop),
    {
        AttemptTracker {
            success_after,
            hard_stop,
            responsive_since: None,
            saw_cpu_activity: false,
            fatal_match: None,
        }
    }

    /// The fatal dialog text that ended the attempt, if any.
    pub fn fatal_match(&self) -> (r: Option<&str>)
        ensures
            r is Some <==> self.fatal_match is Some,
            r matches Some(text) ==> text@ == self.fatal_match->0@,
    {
        match &self.fatal_match {
            Some(text) => Some(text.as_str()),
            None => None,
        }
    }

    /// Records an observation made `elapsed` nanoseconds after binding and
    /// returns the verdict, if the attempt is decided.
    pub fn observe(&mut self, elapsed: u128, observation: &Observation) -> (r: Option<AttemptOutcome>)
        ensures
            (*final(self), r) == observe_step(*old(self), elapsed, *observation),
    {
        if let Some(text) = &observation.fatal_dialog {
            self.fatal_match = Some(text.clone());
            return Some(AttemptOutcome::FailedFatalDialog);
        }
        if observation.werfault {
            return Some(AttemptOutcome::FailedWerFault);
        }
        if !observation.process_exists {
            return Some(
                if elapsed < self.success_after {
                    AttemptOutcome::FailedEarlyExit
                } else {
                    AttemptOutcome::UnknownTimeout
                },
            );
        }
        self.saw_cpu_activity = self.saw_cpu_activity || observation.cpu_active;
        if observation.visible_window && !observation.window_hung {
            if self.responsive_since.is_none() {
                self.responsive_since = Some(elapsed);
            }
        } else {
            self.responsive_since = None;
        }
        let responsive_long_enough = match self.responsive_since {
            Some(since) => {
                let span = if elapsed >= since { elapsed - since } else { 0 };
                span >= RESPONSIVE_NANOS
            },
            None => false,
        };
        if elapsed >= self.success_after && responsive_long_enough && self.saw_cpu_activity {
            return Some(AttemptOutcome::SuccessHeuristic);
        }
        if elapsed >= self.hard_stop {
            return Some(AttemptOutcome::UnknownTimeout);
        }
        None
    }
}

/// A fatal dialog decides the attempt at once as a fatal-dialog failure and
/// its text is kept for the report.
pub proof fn fatal_dialog_wins(t: AttemptTracker, elapsed: u128, o: Observation)
    requires
        o.fatal_dialog is Some,
    ensures
        observe_step(t, elapsed, o).1 == Some(AttemptOutcome::FailedFatalDialog),
        observe_step(t, elapsed, o).0.fatal_match == o.fatal_dialog,
{
}

/// A WerFault process reporting on VRChat, without a fatal dialog, decides
/// the attempt as a WerFault failure at any time, and leaves the tracker as
/// it was.
pub proof fn werfault_is_a_failure(t: AttemptTracker, elapsed: u128, o: Observation)
    requires
        o.fatal_dialog is None,
        o.werfault,
    ensures
        observe_step(t, elapsed, o).1 == Some(AttemptOutcome::FailedWerFault),
        outcome_is_failure(AttemptOutcome::FailedWerFault),
        observe_step(t, elapsed, o).0 == t,
{
}

/// Once the hard stop is reached, every observation decides the attempt.
pub proof fn hard_stop_always_decides(t: AttemptTracker, elapsed: u128, o: Observation)
    requires
        elapsed >= t.hard_stop,
    ensures
        observe_step(t, elapsed, o).1 is Some,
{
}

/// Success is only reported for a live process without fatal signs, after the
/// success threshold, with CPU activity seen and a visible, non-hung window
/// that has stayed responsive for ten seconds.
pub proof fn success_needs_responsive_window_and_cpu(t: AttemptTracker, elapsed: u128, o: Observation)
    requires
        observe_step(t, elapsed, o).1 == Some(AttemptOutcome::SuccessHeuristic),
    ensures
        o.fatal_dialog is None,
        !o.werfault,
        o.process_exists,
        o.visible_window && !o.window_hung,
        elapsed >= t.success_after,
        t.saw_cpu_activity || o.cpu_active,
        observe_step(t, elapsed, o).0.responsive_since matches Some(since)
            && since <= elapsed && elapsed - since >= RESPONSIVE_NANOS,
{
}

/// A process that disappears without a fatal sign is an early-exit failure
/// before the success threshold and an unknown timeout after it.
pub proof fn vanished_process_outcome(t: AttemptTracker, elapsed: u128, o: Observation)
    requires
        o.fatal_dialog is None,
        !o.werfault,
        !o.process_exists,
    ensures
        observe_step(t, elapsed, o).1 == Some(
            if elapsed < t.success_after { AttemptOutcome::FailedEarlyExit } else { AttemptOutcome::UnknownTimeout },
        ),
{
}

/// A live process without fatal signs is not decided before both the success
/// threshold and the hard stop.
pub proof fn no_verdict_while_healthy_and_early(t: AttemptTracker, elapsed: u128, o: Observation)
    requires
        o.fatal_dialog is None,
        !o.werfault,
        o.process_exists,
        elapsed < t.success_after,
        elapsed < t.hard_stop,
    ensures
        observe_step(t, elapsed, o).1 is None,
{
}

/// Observed CPU activity is never forgotten, and a hidden or hung window
/// restarts the responsiveness clock.
pub proof fn tracker_memory(t: AttemptTracker, elapsed: u128, o: Observation)
    requires
        o.fatal_dialog is None,
        !o.werfault,
        o.process_exists,
    ensures
        t.saw_cpu_activity ==> observe_step(t, elapsed, o).0.saw_cpu_activity,
        !(o.visible_window && !o.window_hung) ==> observe_step(t, elapsed, o).0.responsive_since is None,
        (o.visible_window && !o.window_hung && t.responsive_since is Some)
            ==> observe_step(t, elapsed, o).0.responsive_since == t.responsive_since,
{
}

/// Success and unknown timeouts are the outcomes that are not failures.
pub proof fn failure_classification(outcome: AttemptOutcome)
    ensures
        !outcome_is_failure(outcome) <==> (outcome == AttemptOutcome::SuccessHeuristic || outcome == AttemptOutcome::UnknownTimeout),
{
}

/// The tracker after the first `m` observations `os[i]`, made at times
/// `es[i]`, starting from `t`.
pub open spec fn tracker_after(t: AttemptTracker, es: Seq<u128>, os: Seq<Observation>, m: nat) -> AttemptTracker
    decreases m,
{
    if m == 0 {
        t
    } else {
        observe_step(tracker_after(t, es, os, (m - 1) as nat), es[m - 1], os[m - 1]).0
    }
}

/// The verdict of the observation `os[i]`, made after the ones before it.
pub open spec fn verdict_at(t: AttemptTracker, es: Seq<u128>, os: Seq<Observation>, i: nat) -> Option<AttemptOutcome> {
    observe_step(tracker_after(t, es, os, i), es[i as int], os[i as int]).1
}

/// The text of the last fatal dialog among the first `m` observations, or
/// `before` when none showed one.
pub open spec fn last_fatal_text(before: Option<String>, os: Seq<Observation>, m: nat) -> Option<String>
    decreases m,
{
    if m == 0 {
        before
    } else if os[m - 1].fatal_dialog is Some {
        os[m - 1].fatal_dialog
    } else {
        last_fatal_text(before, os, (m - 1) as nat)
    }
}

/// A visible window that is not hung.
pub open spec fn responsive(o: Observation) -> bool {
    o.visible_window && !o.window_hung
}

/// A live process without a fatal sign.
pub open spec fn healthy(o: Observation) -> bool {
    o.fatal_dialog is None && !o.werfault && o.process_exists
}

/// Every observation from `k` up to (not including) `m` is responsive.
pub open spec fn all_responsive(os: Seq<Observation>, k: int, m: int) -> bool {
    forall|i: int| k <= i < m ==> #[trigger] responsive(os[i])
}

/// Where the run of responsive observations that ends the first `m` begins
/// (`m` itself when the last one is not responsive).
pub open spec fn responsive_run_start(os: Seq<Observation>, m: nat) -> nat
    decreases m,
{
    if m == 0 {
        0
    } else if !responsive(os[m - 1]) {
        m
    } else {
        responsive_run_start(os, (m - 1) as nat)
    }
}

/// After any series of observations the tracker keeps the text of the last
/// fatal dialog seen (the earlier one when none was seen), and its thresholds.
pub proof fn fatal_match_is_the_last_fatal_dialog(t: AttemptTracker, es: Seq<u128>, os: Seq<Observation>, m: nat)
    requires
        m <= es.len(),
        m <= os.len(),
    ensures
        tracker_after(t, es, os, m).fatal_match == last_fatal_text(t.fatal_match, os, m),
        tracker_after(t, es, os, m).success_after == t.success_after,
        tracker_after(t, es, os, m).hard_stop == t.hard_stop,
    decreases m,
{
    if m > 0 {
        fatal_match_is_the_last_fatal_dialog(t, es, os, (m - 1) as nat);
    }
}

/// The run of responsive observations ending the first `m` lies inside them,
/// holds only responsive observations, and no longer run does.
proof fn responsive_run_facts(os: Seq<Observation>, m: nat)
    requires
        m <= os.len(),
    ensures
        responsive_run_start(os, m) <= m,
        forall|i: int| responsive_run_start(os, m) <= i < m ==> #[trigger] responsive(os[i]),
        forall|k: int| 0 <= k <= m && #[trigger] all_responsive(os, k, m as int) ==> responsive_run_start(os, m) <= k,
    decreases m,
{
    if m > 0 {
        responsive_run_facts(os, (m - 1) as nat);
        assert forall|k: int| 0 <= k <= m && #[trigger] all_responsive(os, k, m as int)
            implies responsive_run_start(os, m) <= k by {
            if k < m {
                assert(responsive(os[m - 1]));
                assert(all_responsive(os, k, m - 1)) by {
                    assert forall|i: int| k <= i < m - 1 implies #[trigger] responsive(os[i]) by {
                        assert(responsive(os[i]));
                    }
                }
            }
        }
    }
}

/// While every observation so far was undecided, the tracker has seen CPU
/// activity exactly when one of them showed it, and its responsiveness clock
/// started at the first observation of the current responsive run.
proof fn undecided_tracker_state(sa: u128, hs: u128, es: Seq<u128>, os: Seq<Observation>, m: nat)
    requires
        m <= es.len(),
        m <= os.len(),
        forall|i: int| 0 <= i < m ==> #[trigger] verdict_at(fresh_tracker(sa, hs), es, os, i as nat) is None,
    ensures
        tracker_after(fresh_tracker(sa, hs), es, os, m).success_after == sa,
        tracker_after(fresh_tracker(sa, hs), es, os, m).hard_stop == hs,
        tracker_after(fresh_tracker(sa, hs), es, os, m).saw_cpu_activity
            == exists|j: int| 0 <= j < m && #[trigger] os[j].cpu_active,
        tracker_after(fresh_tracker(sa, hs), es, os, m).responsive_since == if responsive_run_start(os, m) < m {
            Some(es[responsive_run_start(os, m) as int])
        } else {
            None::<u128>
        },
    decreases m,
{
    let t0 = fresh_tracker(sa, hs);
    if m > 0 {
        let p = (m - 1) as nat;
        assert forall|i: int| 0 <= i < p implies #[trigger] verdict_at(t0, es, os, i as nat) is None by {
            assert(verdict_at(t0, es, os, i as nat) is None);
        }
        undecided_tracker_state(sa, hs, es, os, p);
        responsive_run_facts(os, p);
        assert(verdict_at(t0, es, os, p) is None);
        assert(responsive_run_start(os, m) == if responsive(os[p as int]) { responsive_run_start(os, p) } else { m });
        let o = os[p as int];
        assert(healthy(o));
        if o.cpu_active {
            assert(os[p as int].cpu_active);
        }
        assert((exists|j: int| 0 <= j < m && #[trigger] os[j].cpu_active)
            == ((exists|j: int| 0 <= j < p && #[trigger] os[j].cpu_active) || o.cpu_active));
    }
}

/// An attempt whose earlier observations, made at non-decreasing times, were
/// all undecided, succeeds at a healthy observation exactly when the success
/// threshold has passed, CPU activity was seen in some observation so far,
/// and the window has been responsive in every observation of the last ten
/// seconds or more.
pub proof fn success_after_a_responsive_streak(sa: u128, hs: u128, es: Seq<u128>, os: Seq<Observation>, n: nat)
    requires
        es.len() == os.len(),
        n < es.len(),
        forall|i: int, j: int| 0 <= i <= j <= n ==> es[i] <= es[j],
        forall|i: int| 0 <= i < n ==> #[trigger] verdict_at(fresh_tracker(sa, hs), es, os, i as nat) is None,
        healthy(os[n as int]),
    ensures
        verdict_at(fresh_tracker(sa, hs), es, os, n) == Some(AttemptOutcome::SuccessHeuristic) <==> {
            &&& es[n as int] >= sa
            &&& exists|j: int| 0 <= j <= n && #[trigger] os[j].cpu_active
            &&& exists|k: int| 0 <= k <= n && es[n as int] - es[k] >= RESPONSIVE_NANOS
                && #[trigger] all_responsive(os, k, n + 1 as int)
        },
{
    let t0 = fresh_tracker(sa, hs);
    undecided_tracker_state(sa, hs, es, os, n);
    responsive_run_facts(os, n);
    responsive_run_facts(os, n + 1);
    let t = tracker_after(t0, es, os, n);
    let o = os[n as int];
    let e = es[n as int];
    let r = responsive_run_start(os, n + 1);
    assert(responsive_run_start(os, n + 1) == if responsive(o) { responsive_run_start(os, n) } else { n + 1 });
    let since = observe_step(t, e, o).0.responsive_since;
    assert(since == if r < n + 1 { Some(es[r as int]) } else { None::<u128> });
    let saw = observe_step(t, e, o).0.saw_cpu_activity;
    assert(saw == exists|j: int| 0 <= j <= n && #[trigger] os[j].cpu_active) by {
        if o.cpu_active {
            assert(os[n as int].cpu_active);
        }
    }
    let streak = exists|k: int| 0 <= k <= n && es[n as int] - es[k] >= RESPONSIVE_NANOS
        && #[trigger] all_responsive(os, k, n + 1 as int);
    let long_enough = match since {
        Some(s) => saturating_diff(e as int, s as int) >= RESPONSIVE_NANOS,
        None => false,
    };
    if long_enough {
        assert(r < n + 1);
        assert(es[r as int] <= e);
        assert(all_responsive(os, r as int, n + 1 as int));
        assert(streak);
    }
    if streak {
        let k = choose|k: int| 0 <= k <= n && es[n as int] - es[k] >= RESPONSIVE_NANOS
            && #[trigger] all_responsive(os, k, n + 1 as int);
        assert(r <= k);
        assert(responsive(os[n as int]));
        assert(es[r as int] <= es[k]);
        assert(long_enough);
    }
}

} // verus!
