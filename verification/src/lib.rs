//! Verified core of a monorepo task runner.
//!
//! The library classifies package directories into ecosystem archetypes,
//! resolves how a named script should be executed against each package,
//! and fingerprints file contents so that callers can detect change.
//! Process execution and file system access happen outside the library;
//! the decisions taken on their results are verified here.

pub mod archetypes;
pub mod change_detection;
pub mod commands;
pub mod executor;
pub mod manifest;
pub mod nodejs_npm;
pub mod package;
pub mod progress;
pub mod project;
pub mod python_poetry;
pub mod runners;
pub mod text;
