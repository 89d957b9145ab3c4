//! The command line as the updater understands it.

use vstd::prelude::*;

verus! {

/// The line that the `version` command prints.
pub const VERSION_LINE: &'static str = "CDN SSL Auto Updater version 2.1.0";

/// What the updater is asked to do.
#[derive(Debug, Clone, Copy, PartialEq, Eq, Structural)]
pub enum Commands {
    /// Report how long each domain's certificate is still valid.
    Check,
    /// Renew the certificates that are about to expire.
    Update,
    /// Renew every certificate, whatever its expiry.
    ForceUpdate,
    /// Print the version.
    Version,
}

/// A parsed command line: the command, and the path of the domain list.
#[derive(Debug)]
pub struct Cli {
    pub command: Commands,
    pub domains: String,
}

impl Commands {
    /// Whether the command reads the certificate that each domain serves.
    pub open spec fn spec_checks_expiry(self) -> bool {
        self == Commands::Check || self == Commands::Update
    }

    /// Whether the command reads the certificate that each domain serves.
    #[verifier::when_used_as_spec(spec_checks_expiry)]
    pub fn checks_expiry(self) -> (checks: bool)
        ensures
            checks == self.spec_checks_expiry(),
    {
        match self {
            Commands::Check | Commands::Update => true,
            _ => false,
        }
    }

    /// Whether the command runs certificate lifecycles.
    pub open spec fn spec_updates(self) -> bool {
        self == Commands::Update || self == Commands::ForceUpdate
    }

    /// Whether the command runs certificate lifecycles.
    #[verifier::when_used_as_spec(spec_updates)]
    pub fn updates(self) -> (updates: bool)
        ensures
            updates == self.spec_updates(),
    {
        match self {
            Commands::Update | Commands::ForceUpdate => true,
            _ => false,
        }
    }
}

} // verus!
