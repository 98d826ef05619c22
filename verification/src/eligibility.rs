//! The interview-eligibility check consumed by the command surface: whether
//! a member may be offered an interview, with the reasons checked in a fixed
//! order so that the most specific cause is reported first.

use vstd::prelude::*;

use crate::context::OperatingContext;
use crate::engine::{holds_any_role, spec_holds_any};

verus! {

/// Why a member may not be interviewed.
#[derive(Clone, Copy, PartialEq, Eq, Structural, Debug)]
pub enum IneligibilityReason {
    /// The target is a bot account.
    TargetBot,
    /// The target is the requester themself.
    TargetSelf,
    /// The target already holds an interviewer role.
    TargetInterviewer,
}

/// The outcome of an eligibility check.
#[derive(Clone, Copy, PartialEq, Eq, Structural, Debug)]
pub enum Eligibility {
    /// The target may be interviewed.
    Eligible,
    /// The target may not be interviewed, for the first matching reason.
    Ineligible(IneligibilityReason),
}

/// The eligibility decision, with its reasons checked in order — bot
/// account, then self-interview, then interviewer — and the first match
/// reported.
pub open spec fn spec_check_eligible(
    interviewers: Seq<u64>,
    target_is_bot: bool,
    target_id: u64,
    requester_id: u64,
    target_roles: Seq<u64>,
) -> Eligibility {
    if target_is_bot {
        Eligibility::Ineligible(IneligibilityReason::TargetBot)
    } else if target_id == requester_id {
        Eligibility::Ineligible(IneligibilityReason::TargetSelf)
    } else if spec_holds_any(target_roles, interviewers) {
        Eligibility::Ineligible(IneligibilityReason::TargetInterviewer)
    } else {
        Eligibility::Eligible
    }
}

/// Checks whether the requester may interview the target member.
pub fn check_eligible(
    ctx: &OperatingContext,
    target_is_bot: bool,
    target_id: u64,
    requester_id: u64,
    target_roles: &Vec<u64>,
) -> (r: Eligibility)
    ensures
        r == spec_check_eligible(
            ctx.roles.interviewers@,
            target_is_bot,
            target_id,
            requester_id,
            target_roles@,
        ),
{
    if target_is_bot {
        Eligibility::Ineligible(IneligibilityReason::TargetBot)
    } else if target_id == requester_id {
        Eligibility::Ineligible(IneligibilityReason::TargetSelf)
    } else if holds_any_role(target_roles, &ctx.roles.interviewers) {
        Eligibility::Ineligible(IneligibilityReason::TargetInterviewer)
    } else {
        Eligibility::Eligible
    }
}

/// Eligibility ordering: the reasons are checked first-match-wins, so a bot
/// account is reported as a bot even when it is also the requester or an
/// interviewer, and a self-interview is reported as such even when the
/// requester holds an interviewer role.
pub proof fn lemma_eligibility_ordering(
    interviewers: Seq<u64>,
    target_is_bot: bool,
    target_id: u64,
    requester_id: u64,
    target_roles: Seq<u64>,
)
    ensures
        target_is_bot ==> spec_check_eligible(
            interviewers,
            target_is_bot,
            target_id,
            requester_id,
            target_roles,
        ) == Eligibility::Ineligible(IneligibilityReason::TargetBot),
        !target_is_bot && target_id == requester_id ==> spec_check_eligible(
            interviewers,
            target_is_bot,
            target_id,
            requester_id,
            target_roles,
        ) == Eligibility::Ineligible(IneligibilityReason::TargetSelf),
        !target_is_bot && target_id != requester_id && spec_holds_any(target_roles, interviewers)
            ==> spec_check_eligible(
            interviewers,
            target_is_bot,
            target_id,
            requester_id,
            target_roles,
        ) == Eligibility::Ineligible(IneligibilityReason::TargetInterviewer),
{
}

} // verus!
