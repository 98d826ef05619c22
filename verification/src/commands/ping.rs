//! The liveness command. It exists as a starting point for new commands and
//! is not wired into the registry.

use vstd::prelude::*;

verus! {

/// The liveness command.
pub struct Command;

impl Command {
    /// The command's name.
    pub fn name() -> (r: &'static str)
        ensures
            r@ == "ping"@,
    {
        "ping"
    }

    /// The command's description.
    pub fn description() -> (r: &'static str)
        ensures
            r@ == "Pong!"@,
    {
        "Pong!"
    }

    /// The command's reply.
    pub fn reply() -> (r: &'static str)
        ensures
            r@ == "Pong!"@,
    {
        "Pong!"
    }
}

} // verus!
