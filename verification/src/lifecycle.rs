//! What started an attempt and the application's coarse state.

use vstd::prelude::*;
use crate::config::DisturbanceParams;
use crate::heuristic::AttemptOutcome;

verus! {

/// The process whose appearance started an attempt.
#[derive(Debug, Clone, Copy, PartialEq, Eq, Structural)]
pub enum TriggerSource {
    ProtectedLauncher,
    EasyAntiCheat,
    VrchatProcess,
}

/// The trigger of an attempt.
#[derive(Debug, Clone, PartialEq, Eq)]
pub struct TriggerInfo {
    pub source: TriggerSource,
    pub source_pid: u32,
    pub path: Option<String>,
}

/// The application's coarse state.
#[derive(Debug, Clone, PartialEq, Eq)]
pub enum AppState {
    Idle,
    CandidateDetected { trigger: TriggerInfo },
    Disturbing { attempt_id: u64, params: DisturbanceParams },
    CoolingDown { pid: Option<u32>, outcome: AttemptOutcome },
    ShuttingDown,
}

} // verus!
