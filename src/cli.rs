use vstd::prelude::*;

verus! {

/// The number of commits that `log` shows when no count is given.
pub const DEFAULT_LOG_COUNT: u32 = 10;

/// A parsed command line.
#[derive(Debug, Clone)]
pub struct Cli {
    pub command: Commands,
}

/// The top-level commands.
#[derive(Debug, Clone)]
pub enum Commands {
    /// Stage every change and commit it.
    Commit { message: String },
    /// Show the most recent commits.
    Log { count: u32 },
    /// Rewrite the message of the last commit.
    Recommit { message: String },
    /// Branch management; with neither an action nor `switch`, list the
    /// branches.
    Branch { action: Option<BranchCommands>, switch: Option<String> },
}

/// The branch subcommands.
#[derive(Debug, Clone)]
pub enum BranchCommands {
    /// Create a branch, from `base` or HEAD, and switch to it if asked.
    New { name: String, base: Option<String>, switch: bool },
    /// Delete a branch.
    Del { name: String },
    /// Rename a branch.
    Rename { old_name: String, new_name: String },
    /// Delete the branches that a regular expression matches.
    DelRegex { pattern: String, force: bool },
}

} // verus!
