//! The enrollment engine: decides, for every inbound message event, whether
//! the sender is enrolled into the verification workflow, and for every
//! membership-join event, whether a previously earned verified role is
//! restored. Every decision is a function of the shared state and the plain
//! facts of the event.

use vstd::prelude::*;

use crate::context::{OperatingContext, Roles};
use crate::database::{Interview, InterviewType, User, UserStatus};
use crate::snapshot::ChannelSnapshot;
use crate::state::BouncerState;
use crate::store::{lemma_lookup_count, spec_lookup, spec_lookup_interview, spec_record_count};

verus! {

/// The plain facts of one inbound message event, extracted from the
/// platform's event payload.
pub struct MessageFacts {
    /// Whether this is a regular user message rather than a system message.
    pub is_regular: bool,
    /// The guild channel the message arrived in, or `None` when the message
    /// did not come from a guild.
    pub channel: Option<ChannelSnapshot>,
    /// Platform identifier of the sender.
    pub sender_id: u64,
    /// Whether the sender is a bot account.
    pub sender_is_bot: bool,
    /// Identifiers of the roles the sender holds.
    pub sender_roles: Vec<u64>,
    /// When the message arrived, as seconds since the epoch.
    pub timestamp: i64,
}

/// Why a message was not an enrollment trigger.
#[derive(Clone, Copy, PartialEq, Eq, Structural, Debug)]
pub enum IgnoreReason {
    /// Not a regular user message.
    SystemMessage,
    /// Not sent in a guild channel.
    NotInGuild,
    /// The channel is not a forum of first contact.
    ChannelNotEligible,
    /// The sender owns the guild.
    GuildOwner,
    /// The sender is a bot account.
    BotAccount,
    /// The sender holds an interviewer role.
    Interviewer,
}

/// What one message event led to.
#[derive(Clone, Copy, PartialEq, Eq, Structural, Debug)]
pub enum MessageDisposition {
    /// The context is not populated yet; the event is deferred, not acted on.
    Deferred,
    /// The message is not an enrollment trigger.
    Ignored(IgnoreReason),
    /// The sender already has a verification record; nothing changes.
    AlreadyEnrolled,
    /// A fresh `Pending` record was created for the sender.
    Enrolled,
}

/// What one membership-join event led to.
#[derive(Clone, Copy, PartialEq, Eq, Structural, Debug)]
pub enum JoinDisposition {
    /// The member was never interviewed; the normal enrollment flow applies
    /// to their next qualifying message.
    NoRecord,
    /// The verified role earned earlier was granted anew.
    Restored {
        /// The granted role.
        role_id: u64,
    },
    /// The member already holds the verified role; granting is a no-op.
    AlreadyHeld {
        /// The role already held.
        role_id: u64,
    },
}

/// Whether a member holding `member_roles` holds any of `wanted`.
pub open spec fn spec_holds_any(member_roles: Seq<u64>, wanted: Seq<u64>) -> bool {
    exists|i: int| 0 <= i < member_roles.len() && wanted.contains(member_roles[i])
}

/// Whether a role list contains one role.
fn contains_role(roles: &Vec<u64>, id: u64) -> (r: bool)
    ensures
        r == roles@.contains(id),
{
    let n = roles.len();
    let mut i: usize = 0;
    while i < n
        invariant
            0 <= i <= n,
            n == roles@.len(),
            forall|k: int| 0 <= k < i ==> roles@[k] != id,
        decreases n - i,
    {
        if roles[i] == id {
            return true;
        }
        i = i + 1;
    }
    false
}

/// Whether a member holds any of the wanted roles.
pub fn holds_any_role(member_roles: &Vec<u64>, wanted: &Vec<u64>) -> (r: bool)
    ensures
        r == spec_holds_any(member_roles@, wanted@),
{
    let n = member_roles.len();
    let mut i: usize = 0;
    while i < n
        invariant
            0 <= i <= n,
            n == member_roles@.len(),
            forall|k: int| 0 <= k < i ==> !wanted@.contains(member_roles@[k]),
        decreases n - i,
    {
        if contains_role(wanted, member_roles[i]) {
            return true;
        }
        i = i + 1;
    }
    false
}

/// The conditions a message must meet before it can enroll its sender,
/// checked in order: regular messages only, from a guild channel, in an
/// eligible (sensitive-content) channel, from a sender who is neither the
/// guild owner, nor a bot, nor an interviewer.
pub open spec fn spec_message_gate(ctx: OperatingContext, facts: MessageFacts) -> Option<
    IgnoreReason,
> {
    if !facts.is_regular {
        Some(IgnoreReason::SystemMessage)
    } else {
        match facts.channel {
            None => Some(IgnoreReason::NotInGuild),
            Some(c) => if !c.nsfw {
                Some(IgnoreReason::ChannelNotEligible)
            } else if facts.sender_id == ctx.guild.owner_id {
                Some(IgnoreReason::GuildOwner)
            } else if facts.sender_is_bot {
                Some(IgnoreReason::BotAccount)
            } else if spec_holds_any(facts.sender_roles@, ctx.roles.interviewers@) {
                Some(IgnoreReason::Interviewer)
            } else {
                None
            },
        }
    }
}

/// Applies the enrollment gate to one message event.
pub fn message_gate(ctx: &OperatingContext, facts: &MessageFacts) -> (r: Option<IgnoreReason>)
    ensures
        r == spec_message_gate(*ctx, *facts),
{
    if !facts.is_regular {
        return Some(IgnoreReason::SystemMessage);
    }
    match &facts.channel {
        None => Some(IgnoreReason::NotInGuild),
        Some(c) => {
            if !c.nsfw {
                Some(IgnoreReason::ChannelNotEligible)
            } else if facts.sender_id == ctx.guild.owner_id {
                Some(IgnoreReason::GuildOwner)
            } else if facts.sender_is_bot {
                Some(IgnoreReason::BotAccount)
            } else if holds_any_role(&facts.sender_roles, &ctx.roles.interviewers) {
                Some(IgnoreReason::Interviewer)
            } else {
                None
            }
        },
    }
}

/// The record a qualifying first message creates.
pub open spec fn spec_pending_record(user_id: i64, timestamp: i64) -> User {
    User { user_id, status: UserStatus::Pending, mark_date: timestamp }
}

/// One enrollment step on the record table: a no-op when the user already
/// has a record, the append of a fresh `Pending` record otherwise.
pub open spec fn spec_enroll(records: Seq<User>, user_id: i64, timestamp: i64) -> Seq<User> {
    if spec_lookup(records, user_id) is Some {
        records
    } else {
        records.push(spec_pending_record(user_id, timestamp))
    }
}

/// Handles one inbound message event: defers while the context is not
/// populated, discards messages that are no enrollment trigger, and
/// otherwise enrolls the sender through the store's atomic insert — so a
/// sender is enrolled at most once no matter how its messages interleave.
pub fn handle_message(state: &mut BouncerState, facts: &MessageFacts) -> (d: MessageDisposition)
    requires
        old(state).wf(),
        facts.sender_id <= i64::MAX as u64,
    ensures
        final(state).wf(),
        final(state).context == old(state).context,
        final(state).store.interviews() == old(state).store.interviews(),
        old(state).context is None ==> d == MessageDisposition::Deferred && final(state).store
            == old(state).store,
        old(state).context matches Some(ctx) ==> {
            let id = facts.sender_id as i64;
            match spec_message_gate(ctx, *facts) {
                Some(reason) => d == MessageDisposition::Ignored(reason) && final(state).store
                    == old(state).store,
                None => final(state).store.records() == spec_enroll(
                    old(state).store.records(),
                    id,
                    facts.timestamp,
                ) && d == (if spec_lookup(old(state).store.records(), id) is Some {
                    MessageDisposition::AlreadyEnrolled
                } else {
                    MessageDisposition::Enrolled
                }),
            }
        },
{
    let gate = match &state.context {
        None => {
            return MessageDisposition::Deferred;
        },
        Some(ctx) => message_gate(ctx, facts),
    };
    if let Some(reason) = gate {
        return MessageDisposition::Ignored(reason);
    }
    let user_id = facts.sender_id as i64;
    match state.store.insert_pending(user_id, facts.timestamp) {
        Ok(_) => MessageDisposition::Enrolled,
        Err(_) => MessageDisposition::AlreadyEnrolled,
    }
}

/// The terminal role corresponding to how an interview was conducted.
pub open spec fn spec_restoration_role(kind: InterviewType, roles: Roles) -> u64 {
    match kind {
        InterviewType::Text => roles.text_verified,
        InterviewType::ID => roles.id_verified,
    }
}

/// The terminal role to restore for an interview of the given kind.
pub fn restoration_role(kind: InterviewType, roles: &Roles) -> (r: u64)
    ensures
        r == spec_restoration_role(kind, *roles),
{
    match kind {
        InterviewType::Text => roles.text_verified,
        InterviewType::ID => roles.id_verified,
    }
}

/// An idempotent role grant: granting a role already held changes nothing.
pub open spec fn spec_grant(member_roles: Seq<u64>, role: u64) -> Seq<u64> {
    if member_roles.contains(role) {
        member_roles
    } else {
        member_roles.push(role)
    }
}

/// The member's roles after one membership-join event: unchanged without an
/// interview record, extended by the earned terminal role otherwise.
pub open spec fn spec_join_roles(
    member_roles: Seq<u64>,
    interview: Option<Interview>,
    roles: Roles,
) -> Seq<u64> {
    match interview {
        None => member_roles,
        Some(iv) => spec_grant(member_roles, spec_restoration_role(iv.kind, roles)),
    }
}

/// Handles one membership-join event: looks the member's most recent
/// interview record up and, when one exists, grants the terminal role it
/// earned. The grant is idempotent — join events can legitimately recur.
pub fn handle_join(
    ctx: &OperatingContext,
    store: &crate::store::RecordStore,
    member_roles: &mut Vec<u64>,
    user_id: u64,
) -> (d: JoinDisposition)
    requires
        store.wf(),
        user_id <= i64::MAX as u64,
    ensures
        ({
            let iv = spec_lookup_interview(store.interviews(), user_id as i64);
            &&& final(member_roles)@ == spec_join_roles(old(member_roles)@, iv, ctx.roles)
            &&& iv is None ==> d == JoinDisposition::NoRecord
            &&& (iv matches Some(interview) ==> {
                let role = spec_restoration_role(interview.kind, ctx.roles);
                d == (if old(member_roles)@.contains(role) {
                    JoinDisposition::AlreadyHeld { role_id: role }
                } else {
                    JoinDisposition::Restored { role_id: role }
                })
            })
        }),
{
    match store.find_interview(user_id as i64) {
        None => JoinDisposition::NoRecord,
        Some(interview) => {
            let role = restoration_role(interview.kind, &ctx.roles);
            if contains_role(member_roles, role) {
                JoinDisposition::AlreadyHeld { role_id: role }
            } else {
                member_roles.push(role);
                JoinDisposition::Restored { role_id: role }
            }
        },
    }
}

/// The record table after a sequence of qualifying message events from one
/// user, applied in arrival order of the timestamps.
pub open spec fn spec_enroll_all(records: Seq<User>, user_id: i64, stamps: Seq<i64>) -> Seq<User>
    decreases stamps.len(),
{
    if stamps.len() == 0 {
        records
    } else {
        spec_enroll(spec_enroll_all(records, user_id, stamps.drop_last()), user_id, stamps.last())
    }
}

/// A user whose record was just appended is found, and the append raises
/// that user's record count by one while leaving every other user's alone.
proof fn lemma_enroll_push(records: Seq<User>, row: User, user_id: i64)
    ensures
        spec_lookup(records.push(row), row.user_id) == Some(row),
        spec_record_count(records.push(row), user_id) == spec_record_count(records, user_id) + if row.user_id
            == user_id {
            1nat
        } else {
            0nat
        },
{
    assert(records.push(row).drop_last() =~= records);
    assert(records.push(row).last() == row);
}

/// Uniqueness: for any sequence of one or more "first message" events from
/// the same user — a user with no record yet — exactly one verification
/// record exists afterward, it is the one created by the first event, and
/// its status is `Pending`.
pub proof fn lemma_enrollment_uniqueness(records: Seq<User>, user_id: i64, stamps: Seq<i64>)
    requires
        spec_record_count(records, user_id) == 0,
        stamps.len() >= 1,
    ensures
        spec_record_count(spec_enroll_all(records, user_id, stamps), user_id) == 1,
        spec_lookup(spec_enroll_all(records, user_id, stamps), user_id) == Some(
            spec_pending_record(user_id, stamps[0]),
        ),
    decreases stamps.len(),
{
    if stamps.len() == 1 {
        assert(spec_enroll_all(records, user_id, stamps.drop_last()) == records);
        lemma_lookup_count(records, user_id);
        let row = spec_pending_record(user_id, stamps.last());
        lemma_enroll_push(records, row, user_id);
        assert(stamps[0] == stamps.last());
    } else {
        lemma_enrollment_uniqueness(records, user_id, stamps.drop_last());
        let mid = spec_enroll_all(records, user_id, stamps.drop_last());
        assert(spec_lookup(mid, user_id) is Some) by {
            lemma_lookup_count(mid, user_id);
        }
        assert(spec_enroll(mid, user_id, stamps.last()) == mid);
        assert(stamps.drop_last()[0] == stamps[0]);
    }
}

/// Idempotent enrollment: a second qualifying message from an already
/// enrolled user changes nothing — the second step returns the table of the
/// first unchanged.
pub proof fn lemma_enrollment_idempotent(records: Seq<User>, user_id: i64, t1: i64, t2: i64)
    ensures
        spec_enroll(spec_enroll(records, user_id, t1), user_id, t2) == spec_enroll(
            records,
            user_id,
            t1,
        ),
{
    if spec_lookup(records, user_id) is None {
        lemma_enroll_push(records, spec_pending_record(user_id, t1), user_id);
    }
}

/// How many times a member's role list carries one role.
pub open spec fn spec_role_count(s: Seq<u64>, role: u64) -> nat
    decreases s.len(),
{
    if s.len() == 0 {
        0
    } else {
        spec_role_count(s.drop_last(), role) + if s.last() == role {
            1nat
        } else {
            0nat
        }
    }
}

/// A role list carries a role exactly when its count is positive.
pub proof fn lemma_role_count_contains(s: Seq<u64>, role: u64)
    ensures
        s.contains(role) <==> spec_role_count(s, role) > 0,
    decreases s.len(),
{
    if s.len() > 0 {
        lemma_role_count_contains(s.drop_last(), role);
        if s.contains(role) {
            let i = choose|i: int| 0 <= i < s.len() && s[i] == role;
            if i < s.len() - 1 {
                assert(s.drop_last()[i] == role);
                assert(s.drop_last().contains(role));
            }
        }
        if s.drop_last().contains(role) {
            let i = choose|i: int| 0 <= i < s.drop_last().len() && s.drop_last()[i] == role;
            assert(s[i] == role);
            assert(s.contains(role));
        }
        if s.last() == role {
            assert(s[s.len() - 1] == role);
            assert(s.contains(role));
        }
    }
}

/// Appending a role raises its count by one and leaves other counts alone.
proof fn lemma_role_count_push(s: Seq<u64>, x: u64, role: u64)
    ensures
        spec_role_count(s.push(x), role) == spec_role_count(s, role) + if x == role {
            1nat
        } else {
            0nat
        },
{
    assert(s.push(x).drop_last() =~= s);
    assert(s.push(x).last() == x);
}

/// Restoration correctness: a join event for an interviewed member leaves
/// the earned terminal role held — the text-verified role for a text
/// interview — and re-processing the same join event changes nothing, so a
/// member who did not hold the role before holds exactly one grant of it
/// afterward, however often the event is redelivered.
pub proof fn lemma_restoration_correctness(
    member_roles: Seq<u64>,
    interview: Interview,
    roles: Roles,
)
    ensures
        spec_join_roles(
            spec_join_roles(member_roles, Some(interview), roles),
            Some(interview),
            roles,
        ) == spec_join_roles(member_roles, Some(interview), roles),
        spec_join_roles(member_roles, Some(interview), roles).contains(
            spec_restoration_role(interview.kind, roles),
        ),
        interview.kind == InterviewType::Text ==> spec_join_roles(
            member_roles,
            Some(interview),
            roles,
        ).contains(roles.text_verified),
        !member_roles.contains(spec_restoration_role(interview.kind, roles))
            ==> spec_role_count(
            spec_join_roles(member_roles, Some(interview), roles),
            spec_restoration_role(interview.kind, roles),
        ) == 1,
{
    let role = spec_restoration_role(interview.kind, roles);
    if !member_roles.contains(role) {
        assert(member_roles.push(role)[member_roles.len() as int] == role);
        assert(member_roles.push(role).contains(role));
        lemma_role_count_contains(member_roles, role);
        lemma_role_count_push(member_roles, role, role);
    }
}

} // verus!
