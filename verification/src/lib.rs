//! Verified core of a coding-tool runtime.
//!
//! - `git_log`, `git_process` and `git_log_session` make up the `git_log` tool: the bounds
//!   of a page, the command lines, the reading of what `git` writes, and the order of the
//!   questions that lead from a request to its answer.
//! - `source_fence`, `observation`, `mutation_outcome`, `registry_moves`,
//!   `validation_source` and `tool_effects` observe potential mutations of a project, so
//!   that a validation can be told to be stale.
//! - `digest`, `git_fixture` and `process_cleanup` serve throw-away repositories.
//! - `text`, `json`, `tool_result` and `rule` hold what the others share.
//!
//! What these promise is stated in `text_laws`, `git_refs_laws`, `git_log_laws`,
//! `git_log_step_laws`, `git_log_answer_laws`, `git_log_session_laws`, `fence_laws` and
//! `operation_laws`, and at the end of the modules that it is about.

pub mod digest;
pub mod fence_laws;
pub mod git_fixture;
pub mod git_log;
pub mod git_log_answer_laws;
pub mod git_log_laws;
pub mod git_log_session;
pub mod git_log_session_laws;
pub mod git_log_step_laws;
pub mod git_process;
pub mod git_refs_laws;
pub mod json;
pub mod mutation_outcome;
pub mod observation;
pub mod operation_laws;
pub mod process_cleanup;
pub mod registry_moves;
pub mod rule;
pub mod source_fence;
pub mod text;
pub mod text_laws;
pub mod tool_effects;
pub mod tool_result;
pub mod validation_source;
