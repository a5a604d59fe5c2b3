//! Commit history and file contents of a git repository, presented to a
//! SQL engine as a table generator and scalar functions.
//!
//! The library holds the decisions: how the commit-log table negotiates
//! constraints with the planner, how its cursor walks a materialized history,
//! and how a blob lookup turns into a text, binary or null value.
pub mod columns;
pub mod plan;
pub mod foreign;
pub mod cursor;
pub mod resolve;
pub mod version;
