//! The command-line surface of the front-end programs, as plain data: the
//! surrounding program parses its arguments and hands these records in.

use vstd::prelude::*;

verus! {

/// Arguments of the `poweroff` and `reboot` programs.
#[derive(Clone, Copy, Debug, PartialEq, Eq, Structural)]
pub struct Power {
    /// Skip the graceful stop pass and make the power transition at once.
    pub force: bool,
}

/// Arguments of the `service` program.
#[derive(Debug, PartialEq)]
pub struct Service {
    pub command: Option<Commands>,
}

/// The sub-commands of the `service` program.
#[derive(Debug, PartialEq)]
pub enum Commands {
    /// Start the named service.
    Start { service: String },

    /// Stop the named service.
    Stop { service: String },

    /// Restart the named service; forced, it stops the service first and
    /// then starts it again.
    Restart { service: String, force: bool },
}

} // verus!
