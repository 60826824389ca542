use vstd::prelude::*;

verus! {

/// Which backend the user asked for.
#[derive(Clone, Copy, Debug, PartialEq, Eq, Structural)]
pub enum BackendChoice {
    Auto,
    Firewalld,
    Nftables,
}

/// Backend utilities.
#[derive(Clone, Copy, Debug, PartialEq, Eq, Structural)]
pub enum BackendCmd {
    List,
    Detect,
}

/// What a run is asked to do.
#[derive(Clone, Copy, Debug, PartialEq, Eq, Structural)]
pub enum Command {
    /// Show the current status, as text, JSON or one line.
    Status { json: bool, one_line: bool },
    /// Run the validations and report through the exit code.
    Check { json: bool },
    /// Show the raw state the backend reports.
    Diff,
    /// Backend utilities.
    Backend { cmd: BackendCmd },
}

/// The arguments of a run.
#[derive(Clone, Debug)]
pub struct Cli {
    pub backend: BackendChoice,
    pub policy: Option<String>,
    pub cmd: Command,
}

} // verus!
