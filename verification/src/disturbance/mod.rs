//! Planning and bookkeeping of a disturbance session.

pub mod profile;
pub mod session;
pub mod worker;

pub use profile::{WorkerPlan, build_worker_plan, phase_offset};
pub use session::{DisturbanceReport, SessionError};
pub use worker::WorkerExit;
