//! A client-side orchestrator for proof-of-work challenges: it decides how
//! many workers to run, partitions the nonce space among them, races them to
//! the first valid solution, checks the winner and estimates the effort spent.

pub mod challenge;
pub mod cli;
pub mod config;
pub mod partition;
pub mod policy;
pub mod progress;
pub mod race;
pub mod service;
pub mod solve;
pub mod telemetry;
pub mod worker;

pub use challenge::{Challenge, ChallengeResponse};
pub use cli::{CliArgs, Commands};
pub use config::{ClientConfig, ConfigError, ConfigManager};
pub use partition::Partition;
pub use policy::SolveConfig;
pub use progress::{progress_after_batch, ProgressSummary, VerboseProgressTracker, WorkerProgress};
pub use race::{RaceState, RaceStep};
pub use service::{ApiError, ApiResponse};
pub use solve::{
    accept_verified, check_expiry, conclude, plan_solve, start_solve, SolveError, SolvePlan, SolveReport,
};
pub use telemetry::{estimate_effort, Telemetry};
pub use worker::{run_unpartitioned, run_worker, WorkerOutcome};
