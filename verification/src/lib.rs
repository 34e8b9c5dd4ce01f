//! A continuous-deployment supervisor as a verified state machine.
//!
//! The library tracks one branch of a remote repository and one supervised
//! process. It decides; a driver outside performs what was decided and
//! reports back.

pub mod config;
pub mod engine;
pub mod github;
pub mod json;
pub mod laws;
pub mod model;
pub mod protocol;
pub mod text;

pub use config::{default_interval, Config};
pub use engine::{has_drifted, OutOfTurn, ReconciliationEngine, Step};
pub use github::{
    authorization, branch_url, check_status, checkout_dir, clone_url, commit_sha, data_root,
    effective_token, head_ref, remote_head, user_agent, SyncError,
};
pub use model::{EXIT_CLEAN, EXIT_FATAL, SETTLE_SECS};
pub use protocol::{Action, Event, Notice, Severity, SupervisionState};
pub use text::{can_be_shortened, short_sha, SHORT_SHA_BYTES};
