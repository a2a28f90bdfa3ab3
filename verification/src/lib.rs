//! The orchestration core of a desktop shell over a version-control engine.
//!
//! The library decides; it never touches a repository, a store or a window.
//! It tells which repository an operation works on (`resolver`), keeps the
//! registry of known repositories (`registry`, `store`), classifies two
//! branches before a merge (`classify`, `merge_analysis`), conducts the two
//! merge strategies (`fast_forward`, `normal_merge`), answers the transport's
//! requests for credentials (`credentials`), throttles its progress
//! (`progress`) and conducts a push (`remote`). The remaining modules shape
//! what the shell shows: branches, commits, changes and differences.
//!
//! Operations on a repository are machines over the vocabulary of `engine`:
//! the caller performs each action that a machine asks for, and hands back
//! the engine's answer.
pub mod branch;
pub mod classify;
pub mod commit;
pub mod config;
pub mod credentials;
pub mod engine;
pub mod error;
pub mod fast_forward;
pub mod file;
pub mod merge_analysis;
pub mod normal_merge;
pub mod progress;
pub mod registry;
pub mod remote;
pub mod resolver;
pub mod script;
pub mod staging;
pub mod status;
pub mod store;
pub mod text;
