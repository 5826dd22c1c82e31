//! What the command line asks for.

use vstd::prelude::*;

verus! {

/// The command to run inside the environment, its own name first.
#[derive(Debug, PartialEq)]
pub struct Run {
    pub command: Vec<String>,
}

/// What to do with the environment.
#[derive(Debug, PartialEq)]
pub enum SubCommand {
    /// Take the environment down.
    Delete,
    /// Run a command inside the environment.
    Run(Run),
    /// Open a shell inside the environment.
    Shell,
}

/// The options of one invocation.
#[derive(Debug, PartialEq)]
pub struct Options {
    /// What to do.
    pub subcmd: SubCommand,
    /// The configuration file.
    pub file: String,
    /// Whether to say more.
    pub verbose: bool,
    /// Whether to start an init inside the container first.
    pub boot: bool,
}

} // verus!
