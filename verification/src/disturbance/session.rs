//! The tally of a stopped session.

use vstd::prelude::*;
use super::worker::WorkerExit;

verus! {

/// The summary of a stopped session. `elapsed` is in nanoseconds.
#[derive(Debug, Default, Clone, Copy, PartialEq, Eq)]
pub struct DisturbanceReport {
    pub worker_count: usize,
    pub affinity_successes: usize,
    pub affinity_failures: usize,
    pub priority_successes: usize,
    pub priority_failures: usize,
    pub panics: usize,
    pub elapsed: u128,
}

/// Why a session could not start.
#[derive(Debug)]
pub enum SessionError {
    NoLogicalProcessors,
    Spawn { index: usize, source: std::io::Error },
}

/// `1` for true, `0` for false.
pub open spec fn count_of(b: bool) -> int {
    if b { 1 } else { 0 }
}

/// The report after one more joined worker: `None` stands for a worker that
/// panicked.
pub open spec fn recorded(r: DisturbanceReport, exit: Option<WorkerExit>) -> DisturbanceReport {
    match exit {
        Some(e) => DisturbanceReport {
            affinity_successes: (r.affinity_successes + count_of(e.affinity_set)) as usize,
            affinity_failures: (r.affinity_failures + count_of(!e.affinity_set)) as usize,
            priority_successes: (r.priority_successes + count_of(e.priority_set)) as usize,
            priority_failures: (r.priority_failures + count_of(!e.priority_set)) as usize,
            ..r
        },
        None => DisturbanceReport { panics: (r.panics + 1) as usize, ..r },
    }
}

/// The number of joined workers that a report accounts for.
pub open spec fn accounted(r: DisturbanceReport) -> int {
    r.affinity_successes + r.affinity_failures + r.panics
}

impl DisturbanceReport {
    /// A report for `worker_count` workers with nothing joined yet.
    pub fn started(worker_count: usize, elapsed: u128) -> (r: Self)
        ensures
            r == (DisturbanceReport {
                worker_count,
                affinity_successes: 0,
                affinity_failures: 0,
                priority_successes: 0,
                priority_failures: 0,
                panics: 0,
                elapsed,
            }),
    {
        DisturbanceReport {
            worker_count,
            affinity_successes: 0,
            affinity_failures: 0,
            priority_successes: 0,
            priority_failures: 0,
            panics: 0,
            elapsed,
        }
    }

    /// Counts one joined worker: its exit report, or `None` if it panicked.
    pub fn record(&mut self, exit: Option<WorkerExit>)
        requires
            accounted(*old(self)) < old(self).worker_count,
            old(self).affinity_successes + old(self).affinity_failures == old(self).priority_successes + old(self).priority_failures,
        ensures
            *final(self) == recorded(*old(self), exit),
            accounted(*final(self)) == accounted(*old(self)) + 1,
            final(self).affinity_successes + final(self).affinity_failures
                == final(self).priority_successes + final(self).priority_failures,
    {
        match exit {
            Some(e) => {
                if e.affinity_set {
                    self.affinity_successes = self.affinity_successes + 1;
                } else {
                    self.affinity_failures = self.affinity_failures + 1;
                }
                if e.priority_set {
                    self.priority_successes = self.priority_successes + 1;
                } else {
                    self.priority_failures = self.priority_failures + 1;
                }
            },
            None => {
                self.panics = self.panics + 1;
            },
        }
    }
}

/// A panicked worker counts as exactly one panic and nothing else; a worker
/// that exited counts once under affinity and once under priority, as a
/// success where it got what it asked for and as a failure where not; the
/// worker count and the duration never change.
pub proof fn each_worker_is_counted_once(r: DisturbanceReport, exit: Option<WorkerExit>)
    requires
        accounted(r) < r.worker_count,
        r.affinity_successes + r.affinity_failures == r.priority_successes + r.priority_failures,
    ensures
        recorded(r, exit).worker_count == r.worker_count,
        recorded(r, exit).elapsed == r.elapsed,
        exit is None ==> recorded(r, exit).panics == r.panics + 1
            && recorded(r, exit).affinity_successes == r.affinity_successes
            && recorded(r, exit).affinity_failures == r.affinity_failures
            && recorded(r, exit).priority_successes == r.priority_successes
            && recorded(r, exit).priority_failures == r.priority_failures,
        exit is Some ==> recorded(r, exit).panics == r.panics
            && recorded(r, exit).affinity_successes + recorded(r, exit).affinity_failures
                == r.affinity_successes + r.affinity_failures + 1
            && recorded(r, exit).priority_successes + recorded(r, exit).priority_failures
                == r.priority_successes + r.priority_failures + 1
            && (exit->0.affinity_set <==> recorded(r, exit).affinity_successes == r.affinity_successes + 1)
            && (exit->0.priority_set <==> recorded(r, exit).priority_successes == r.priority_successes + 1),
{
}

} // verus!
