//! The command-line surface.
//!
//! The binary parses its arguments into these types; the library only
//! dispatches on them.

use vstd::prelude::*;

verus! {

/// Parsed command-line arguments.
#[derive(Clone, Copy)]
pub struct Cli {
    pub cmd: Option<Command>,
}

/// The one subcommand: emit the shell-integration script.
#[derive(Clone, Copy)]
pub enum Command {
    Init,
}

} // verus!
