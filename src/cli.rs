use vstd::prelude::*;

verus! {

/// The command line: the provider to ask, how talkative the log is and what
/// to do.
#[derive(Debug)]
pub struct CLI {
    pub provider: CloudProviders,
    pub verbose: u8,
    pub command: Commands,
}

/// The cloud providers that can be asked.
#[derive(Debug, Clone, Copy, PartialEq, Eq, Structural)]
pub enum CloudProviders {
    Aws,
}

/// What the tool is asked to show.
#[derive(Debug)]
pub enum Commands {
    /// The instances of the account.
    Instances,
    /// The parameters under a path.
    Params { path: Option<String>, decrypt: bool },
    /// The identity behind the credentials.
    Whoami,
}

/// The log filter for a count of `-v` flags.
pub open spec fn level_for(verbose: u8) -> Seq<char> {
    if verbose == 0 {
        "warn"@
    } else if verbose == 1 {
        "info"@
    } else if verbose == 2 {
        "debug"@
    } else {
        "trace"@
    }
}

impl CLI {
    /// The log filter that the verbosity asks for.
    pub fn log_level(&self) -> (r: &'static str)
        ensures
            r@ == level_for(self.verbose),
    {
        if self.verbose == 0 {
            "warn"
        } else if self.verbose == 1 {
            "info"
        } else if self.verbose == 2 {
            "debug"
        } else {
            "trace"
        }
    }
}

} // verus!
