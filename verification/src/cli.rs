//! Command-line surface: which subcommand was requested, already parsed
//! into plain values.  Argument parsing itself happens outside this crate.

use vstd::prelude::*;

verus! {

/// The subcommands the tool accepts.
#[derive(Debug, Clone)]
pub enum Commands {
    /// Create a new game directory with a default configuration.
    New { game: String },
    /// Remove a game directory.
    Remove { game: String },
    /// Attach to a running game.
    Attach { game: String },
}

/// The parsed command line.
#[derive(Debug, Clone)]
pub struct Cli {
    pub command: Option<Commands>,
    /// List available games.
    pub list: bool,
}

} // verus!
