//! The command surface's registry: each command under its name, with the
//! decisions the commands must make. Presentation — building the platform's
//! command descriptors and sending replies — belongs to the adapter around
//! the library.

use vstd::prelude::*;

pub mod dob;
pub mod interview;
pub mod meow;
pub mod ping;

verus! {

/// The commands registered with the guild.
#[derive(Clone, Copy, PartialEq, Eq, Structural, Debug)]
pub enum CommandKind {
    /// The template command that only replies.
    Meow,
    /// The date-of-birth age command.
    Dob,
    /// The interview command.
    Interview,
}

/// The view of an optional borrowed string.
pub open spec fn view_opt_str(o: Option<&str>) -> Option<Seq<char>> {
    match o {
        None => None,
        Some(s) => Some(s@),
    }
}

/// The command registered under a name, if any.
pub open spec fn spec_command_for_name(s: Seq<char>) -> Option<CommandKind> {
    if s == "meow"@ {
        Some(CommandKind::Meow)
    } else if s == "dob"@ {
        Some(CommandKind::Dob)
    } else if s == "interview"@ {
        Some(CommandKind::Interview)
    } else {
        None
    }
}

/// Whether two strings are equal.
fn str_eq(a: &str, b: &str) -> (r: bool)
    ensures
        r == (a@ == b@),
{
    let x = a.to_owned();
    let y = b.to_owned();
    x == y
}

/// Looks the command to run up by the name the interaction carries;
/// interactions naming no registered command are ignored.
pub fn command_for_name(name: &str) -> (r: Option<CommandKind>)
    ensures
        r == spec_command_for_name(name@),
{
    if str_eq(name, "meow") {
        Some(CommandKind::Meow)
    } else if str_eq(name, "dob") {
        Some(CommandKind::Dob)
    } else if str_eq(name, "interview") {
        Some(CommandKind::Interview)
    } else {
        None
    }
}

/// The names of the guild commands to register, in registration order.
pub fn registered_command_names() -> (r: Vec<&'static str>)
    ensures
        r@.len() == 3,
        r@[0]@ == "meow"@,
        r@[1]@ == "dob"@,
        r@[2]@ == "interview"@,
{
    let mut names: Vec<&'static str> = Vec::new();
    names.push("meow");
    names.push("dob");
    names.push("interview");
    names
}

} // verus!
