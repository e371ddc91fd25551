//! Builds a continuous-integration workflow for a Rust project from a few
//! feature flags: which jobs exist, their steps, gates, permissions and
//! dependency edges are all decided here, as plain values with exact
//! contracts. Rendering the result to a file is left to the caller.

pub mod condition;
pub mod step;
pub mod job;
pub mod workflow;
pub mod guarantees;

pub use condition::{Condition, ContextField};
pub use job::{Concurrency, EnvVar, Job, JobId, Level, Permissions};
pub use step::{CargoCommand, CargoStep, ReleaseCommand, Step, Toolchain};
pub use workflow::{Events, GithubWorkflow, PullRequestType, Workflow};
