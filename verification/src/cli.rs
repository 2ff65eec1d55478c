//! What the user asks for on the command line, once parsed.
use vstd::prelude::*;

verus! {

/// What to do.
#[derive(Debug, Clone, Copy, PartialEq, Eq, Structural)]
pub enum Command {
    /// Bring the links of the home environment in line with the repository.
    Sync,
    /// Show the home environment.
    Info,
}

/// The command with its options.
#[derive(Debug, PartialEq, Eq)]
pub struct Cli {
    pub command: Command,
    /// The home directory to take in place of the inferred one.
    pub home_dir: Option<String>,
    /// The configuration directory to take in place of the inferred one.
    pub config_dir: Option<String>,
    /// Where the repository is.
    pub repo: Option<String>,
    /// The path of the file that describes the repository.
    pub config: Option<String>,
    /// Whether changes are only rehearsed.
    pub dry_run: bool,
}

} // verus!
