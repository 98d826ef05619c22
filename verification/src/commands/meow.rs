//! The template command: it only replies.

use vstd::prelude::*;

verus! {

/// The template command.
pub struct Command;

impl Command {
    /// The command's name.
    pub fn name() -> (r: &'static str)
        ensures
            r@ == "meow"@,
    {
        "meow"
    }

    /// The command's description.
    pub fn description() -> (r: &'static str)
        ensures
            r@ == "Meow."@,
    {
        "Meow."
    }

    /// The command's reply.
    pub fn reply() -> (r: &'static str)
        ensures
            r@ == "meow :3"@,
    {
        "meow :3"
    }
}

} // verus!
