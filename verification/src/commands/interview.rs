//! The interview command's decisions: whether the target may be
//! interviewed, and the reply for each refusal. Sending the reply, and
//! wording the announcement that mentions the member, belong to the adapter.

use vstd::prelude::*;

use crate::eligibility::{Eligibility, IneligibilityReason};

verus! {

/// The refusal reply for each ineligibility reason; an eligible target is
/// not refused.
pub open spec fn spec_refusal_reply(e: Eligibility) -> Option<Seq<char>> {
    match e {
        Eligibility::Eligible => None,
        Eligibility::Ineligible(IneligibilityReason::TargetBot) => Some(
            "You cannot interview a bot."@,
        ),
        Eligibility::Ineligible(IneligibilityReason::TargetSelf) => Some(
            "You cannot interview yourself."@,
        ),
        Eligibility::Ineligible(IneligibilityReason::TargetInterviewer) => Some(
            "You cannot interview an interviewer."@,
        ),
    }
}

/// The reply refusing an interview request, if it is to be refused.
pub fn refusal_reply(e: Eligibility) -> (r: Option<&'static str>)
    ensures
        r is Some <==> spec_refusal_reply(e) is Some,
        r matches Some(s) ==> Some(s@) == spec_refusal_reply(e),
{
    match e {
        Eligibility::Eligible => None,
        Eligibility::Ineligible(IneligibilityReason::TargetBot) => Some(
            "You cannot interview a bot.",
        ),
        Eligibility::Ineligible(IneligibilityReason::TargetSelf) => Some(
            "You cannot interview yourself.",
        ),
        Eligibility::Ineligible(IneligibilityReason::TargetInterviewer) => Some(
            "You cannot interview an interviewer.",
        ),
    }
}

/// The interview command.
pub struct Command;

impl Command {
    /// The command's name.
    pub fn name() -> (r: &'static str)
        ensures
            r@ == "interview"@,
    {
        "interview"
    }

    /// The command's description.
    pub fn description() -> (r: &'static str)
        ensures
            r@ == "Interview a user."@,
    {
        "Interview a user."
    }

    /// The name of the command's required user option.
    pub fn user_option_name() -> (r: &'static str)
        ensures
            r@ == "user"@,
    {
        "user"
    }

    /// The description of the command's required user option.
    pub fn user_option_description() -> (r: &'static str)
        ensures
            r@ == "The user to interview."@,
    {
        "The user to interview."
    }

    /// The name of the command's required interview-type option.
    pub fn type_option_name() -> (r: &'static str)
        ensures
            r@ == "type"@,
    {
        "type"
    }

    /// The description of the command's required interview-type option.
    pub fn type_option_description() -> (r: &'static str)
        ensures
            r@ == "The type of the interview."@,
    {
        "The type of the interview."
    }

    /// The reply when the targeted user is not a member of the server.
    pub fn not_a_member_reply() -> (r: &'static str)
        ensures
            r@ == "This user does not seem to be a member of the server."@,
    {
        "This user does not seem to be a member of the server."
    }
}

} // verus!
