//! Errors of setting up the rotating JSON log.

use vstd::prelude::*;

verus! {

/// Why the log could not be set up.
#[derive(Debug)]
pub enum LoggingError {
    /// No per-user cache directory is known.
    NoProjectDirectory,
    /// The log directory could not be created.
    Io(std::io::Error),
    /// Another logging subscriber was already installed.
    Subscriber(String),
}

} // verus!
