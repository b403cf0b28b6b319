//! A judge for learner-submitted programs.
//!
//! A submission is compiled in a workspace of its own, run under a fixed
//! time budget and passed or failed by what it printed and by what its source
//! holds. This library decides; it starts no process and touches no file.
//!
//! - [`text`]: the comparisons on text that the rules are made of.
//! - [`types`]: submissions, problems and their source rules.
//! - [`workspace`]: the paths of a submission's workspace.
//! - [`stage`]: what the build and the run report.
//! - [`verdict`]: whether a submission passes.
//! - [`response`]: what the caller gets back.
//! - [`record`]: what is kept of a judged submission.
//! - [`pipeline`]: the request as a machine from events to actions.

pub mod pipeline;
pub mod record;
pub mod response;
pub mod stage;
pub mod text;
pub mod types;
pub mod verdict;
pub mod workspace;
