//! Static configuration: the identifiers the bot must resolve against the
//! live directory before it may operate.

use vstd::prelude::*;

verus! {

/// Top-level configuration.
pub struct Config {
    /// Path of the database file.
    pub database: String,
    /// Path of the folder where logs are stored.
    pub logs_folder: String,
    /// Platform-specific configuration.
    pub discord: Discord,
}

/// Platform-specific configuration: the guild and the channel/role
/// identifiers the resolver must bind to live entities.
pub struct Discord {
    /// Gateway authentication token.
    pub token: String,
    /// Identifier of the guild the bot administers.
    pub guild_id: u64,
    /// Channel identifiers.
    pub channels: DiscordChannels,
    /// Role identifiers.
    pub roles: DiscordRoles,
}

/// Configured channel identifiers.
pub struct DiscordChannels {
    /// Channel for verification-related announcements.
    pub interview_marks_id: u64,
}

/// Configured role identifiers.
pub struct DiscordRoles {
    /// Roles whose holders conduct interviews and are exempt from enrollment.
    pub interviewer_ids: Vec<u64>,
    /// Role for users awaiting an interview.
    pub pending_interview_id: u64,
    /// Role for users currently being interviewed.
    pub ongoing_interview_id: u64,
    /// Terminal role for text-verified users.
    pub text_verified_id: u64,
    /// Terminal role for id-verified users.
    pub id_verified_id: u64,
}

/// Default path for the database file.
pub fn default_database_path() -> (r: String)
    ensures
        r@ == "data/db.sqlite"@,
{
    "data/db.sqlite".to_owned()
}

/// Default path of the folder where logs are stored.
pub fn default_logs_folder_path() -> (r: String)
    ensures
        r@ == "logs/"@,
{
    "logs/".to_owned()
}

} // verus!
