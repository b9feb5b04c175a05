//! Workflow-automation engine for multi-branch git operations: ordered step
//! chains, a dry-run/real execution strategy, and a resume-from-failure
//! protocol that regenerates the exact command needed to continue a halted
//! chain.

pub mod command_chain;
pub mod commands;
pub mod git;
pub mod string_ext;
