//! The command-line surface as plain data. Parsing the actual command line
//! belongs to the adapter around the library, which converts into these
//! types.

use vstd::prelude::*;

verus! {

/// The parsed command line.
pub struct Cli {
    /// The chosen subcommand.
    pub subcommand: SubCommands,
}

/// The subcommands the program offers.
pub enum SubCommands {
    /// Start the bot.
    Start {
        /// Path of the configuration file.
        config: String,
    },
}

impl Cli {
    /// The default path of the configuration file.
    pub fn default_config_path() -> (r: String)
        ensures
            r@ == "config.yaml"@,
    {
        "config.yaml".to_owned()
    }
}

} // verus!
