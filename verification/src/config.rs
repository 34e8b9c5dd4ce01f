//! The supervisor's configuration.

use vstd::prelude::*;

verus! {

/// What the supervisor is told at startup. It does not change afterwards.
#[derive(Debug)]
pub struct Config {
    /// The account that owns the repository.
    pub account: String,
    /// The repository's name; the checkout directory is named after it.
    pub repository: String,
    /// The branch to track.
    pub branch: String,
    /// An access token. A blank one counts as none.
    pub token: Option<String>,
    /// Seconds between two reconciliation ticks.
    pub interval: u64,
    /// The shell command that starts the supervised process.
    pub start_command: Option<String>,
    /// The shell command that stops it; without one the process is killed.
    pub stop_command: Option<String>,
}

/// Seconds between two reconciliation ticks when the configuration names none.
pub fn default_interval() -> (secs: u64)
    ensures
        secs == 60,
{
    60
}

} // verus!
