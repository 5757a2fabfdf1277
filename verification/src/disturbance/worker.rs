//! What a disturbance worker reports when it stops.

use vstd::prelude::*;

verus! {

/// The report of one finished worker.
#[derive(Debug, Clone, Copy, PartialEq, Eq, Structural)]
pub struct WorkerExit {
    pub index: usize,
    pub affinity_set: bool,
    pub priority_set: bool,
    pub iterations: u64,
}

} // verus!
