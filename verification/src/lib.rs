//! Prompt-variable computation and template rendering for a shell prompt.
//!
//! The crate renders a declarative tree of prompt elements into an
//! escape-coded prompt string, and fills an indexed array of prompt
//! variables from a list of data sources (version control, privilege,
//! toolchain, directory environment, key agent, project marker).

pub mod cli;
pub mod config;
pub mod sources;
pub mod text;
pub mod vcs;
