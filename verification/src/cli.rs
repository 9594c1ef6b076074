use vstd::prelude::*;

verus! {

/// The command line: one subcommand.
#[derive(Debug)]
pub struct Cli {
    /// The subcommand to execute
    pub command: Command,
}

/// Available subcommands of the checker.
#[derive(Debug)]
pub enum Command {
    /// Authenticate and store session
    Login { email: String, password: String },
    /// Check current attendance status
    Check,
}

} // verus!
