//! Release orchestration: decides which repository mutations a release runs,
//! in which order, and drives them against a git repository.
pub mod action;
pub mod error;
mod git;
pub mod project;
pub mod sequence;
pub mod strings;
pub mod version;
