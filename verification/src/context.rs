//! The context resolver: binds configured identifiers to live directory
//! entities, producing a fully-resolved operating context or a fatal error.
//! The context is never partially valid — either every configured entity
//! resolves, or resolution fails naming the first entity that did not.

use vstd::prelude::*;

use crate::config::Discord;
use crate::snapshot::{ChannelSnapshot, DirectorySnapshot, GuildSnapshot};

verus! {

/// The channels of a resolved operating context.
#[derive(Debug)]
pub struct Channels {
    /// Channel used for verification-related announcements.
    pub interview_marks: ChannelSnapshot,
}

/// The roles of a resolved operating context.
#[derive(Debug)]
pub struct Roles {
    /// Non-empty set of roles whose holders conduct interviews and are
    /// exempt from enrollment.
    pub interviewers: Vec<u64>,
    /// Role denoting a user awaiting an interview.
    pub pending_interview: u64,
    /// Role denoting a user currently being interviewed.
    pub ongoing_interview: u64,
    /// Terminal role granted after a text interview.
    pub text_verified: u64,
    /// Terminal role granted after an id interview.
    pub id_verified: u64,
}

/// A resolved, immutable snapshot of the configuration bound to live
/// directory entities. Constructed only by [`resolve`], which refuses to
/// produce a partially valid value.
#[derive(Debug)]
pub struct OperatingContext {
    /// The guild this bot administers.
    pub guild: GuildSnapshot,
    /// Resolved channels.
    pub channels: Channels,
    /// Resolved roles.
    pub roles: Roles,
}

/// Which singular configured role failed to resolve.
#[derive(Clone, Copy, PartialEq, Eq, Structural, Debug)]
pub enum RoleKey {
    /// The role for users awaiting an interview.
    PendingInterview,
    /// The role for users currently being interviewed.
    OngoingInterview,
    /// The terminal role for text-verified users.
    TextVerified,
    /// The terminal role for id-verified users.
    IdVerified,
}

/// Why resolution failed, naming the configured identifier that could not be
/// bound. Fatal at the process level: the caller must halt rather than
/// operate with a partially-wrong context.
#[derive(Clone, Copy, PartialEq, Eq, Structural, Debug)]
pub enum ResolutionError {
    /// The configured guild is not in the directory snapshot.
    GuildNotFound {
        /// The configured guild identifier.
        guild_id: u64,
    },
    /// The configured announcement channel is not in the guild.
    ChannelNotFound {
        /// The configured channel identifier.
        channel_id: u64,
    },
    /// None of the configured interviewer roles is in the guild.
    InterviewerRolesNotFound,
    /// A singular configured role is not in the guild.
    RoleNotFound {
        /// Which configured role reference failed.
        key: RoleKey,
        /// The configured role identifier.
        role_id: u64,
    },
}

impl OperatingContext {
    /// A context is well-formed when its guild view is well-formed and at
    /// least one interviewer role resolved.
    pub open spec fn wf(self) -> bool {
        &&& self.guild.wf()
        &&& self.roles.interviewers@.len() > 0
    }
}

/// The configured interviewer roles that are present in the guild, in
/// configuration order.
pub open spec fn spec_present_roles(g: GuildSnapshot, ids: Seq<u64>) -> Seq<u64>
    decreases ids.len(),
{
    if ids.len() == 0 {
        Seq::empty()
    } else {
        let rest = spec_present_roles(g, ids.drop_last());
        if g.spec_has_role(ids.last()) {
            rest.push(ids.last())
        } else {
            rest
        }
    }
}

/// Whether every configured entity resolves against the snapshot: the guild
/// exists, the announcement channel exists, at least one interviewer role
/// matches, and each singular role exists.
pub open spec fn spec_resolvable(cfg: Discord, dir: DirectorySnapshot) -> bool {
    let g = dir.spec_guild(cfg.guild_id);
    &&& dir.spec_has_guild(cfg.guild_id)
    &&& g.spec_has_channel(cfg.channels.interview_marks_id)
    &&& spec_present_roles(g, cfg.roles.interviewer_ids@).len() > 0
    &&& g.spec_has_role(cfg.roles.pending_interview_id)
    &&& g.spec_has_role(cfg.roles.ongoing_interview_id)
    &&& g.spec_has_role(cfg.roles.text_verified_id)
    &&& g.spec_has_role(cfg.roles.id_verified_id)
}

/// The error reported when resolution fails: the first configured entity, in
/// lookup order, that could not be bound. The guild is checked first since
/// every other lookup depends on it.
pub open spec fn spec_resolution_error(cfg: Discord, dir: DirectorySnapshot) -> ResolutionError {
    let g = dir.spec_guild(cfg.guild_id);
    if !dir.spec_has_guild(cfg.guild_id) {
        ResolutionError::GuildNotFound { guild_id: cfg.guild_id }
    } else if !g.spec_has_channel(cfg.channels.interview_marks_id) {
        ResolutionError::ChannelNotFound { channel_id: cfg.channels.interview_marks_id }
    } else if spec_present_roles(g, cfg.roles.interviewer_ids@).len() == 0 {
        ResolutionError::InterviewerRolesNotFound
    } else if !g.spec_has_role(cfg.roles.pending_interview_id) {
        ResolutionError::RoleNotFound {
            key: RoleKey::PendingInterview,
            role_id: cfg.roles.pending_interview_id,
        }
    } else if !g.spec_has_role(cfg.roles.ongoing_interview_id) {
        ResolutionError::RoleNotFound {
            key: RoleKey::OngoingInterview,
            role_id: cfg.roles.ongoing_interview_id,
        }
    } else if !g.spec_has_role(cfg.roles.text_verified_id) {
        ResolutionError::RoleNotFound {
            key: RoleKey::TextVerified,
            role_id: cfg.roles.text_verified_id,
        }
    } else {
        ResolutionError::RoleNotFound {
            key: RoleKey::IdVerified,
            role_id: cfg.roles.id_verified_id,
        }
    }
}

/// Collects the configured interviewer roles that the guild has, in
/// configuration order.
fn collect_present_roles(g: &GuildSnapshot, ids: &Vec<u64>) -> (r: Vec<u64>)
    ensures
        r@ == spec_present_roles(*g, ids@),
{
    let n = ids.len();
    let mut out: Vec<u64> = Vec::new();
    let mut i: usize = 0;
    while i < n
        invariant
            0 <= i <= n,
            n == ids@.len(),
            out@ == spec_present_roles(*g, ids@.take(i as int)),
        decreases n - i,
    {
        proof {
            assert(ids@.take(i + 1).drop_last() =~= ids@.take(i as int));
            assert(ids@.take(i + 1).last() == ids@[i as int]);
        }
        if g.has_role(ids[i]) {
            out.push(ids[i]);
        }
        i = i + 1;
    }
    proof {
        assert(ids@.take(n as int) =~= ids@);
    }
    out
}

/// Resolves a configuration against a directory snapshot.
///
/// Succeeds, with a fully-populated immutable context, exactly when the
/// guild, the announcement channel, at least one interviewer role and every
/// singular role resolve; otherwise fails naming the first entity, in lookup
/// order, that could not be bound.
pub fn resolve(cfg: &Discord, dir: DirectorySnapshot) -> (r: Result<
    OperatingContext,
    ResolutionError,
>)
    requires
        dir.wf(),
    ensures
        r is Ok <==> spec_resolvable(*cfg, dir),
        r matches Ok(ctx) ==> {
            let g = dir.spec_guild(cfg.guild_id);
            &&& ctx.guild == g
            &&& ctx.channels.interview_marks == g.spec_channel(cfg.channels.interview_marks_id)
            &&& ctx.roles.interviewers@ == spec_present_roles(g, cfg.roles.interviewer_ids@)
            &&& ctx.roles.pending_interview == cfg.roles.pending_interview_id
            &&& ctx.roles.ongoing_interview == cfg.roles.ongoing_interview_id
            &&& ctx.roles.text_verified == cfg.roles.text_verified_id
            &&& ctx.roles.id_verified == cfg.roles.id_verified_id
            &&& ctx.wf()
        },
        r matches Err(e) ==> e == spec_resolution_error(*cfg, dir),
{
    let mut dir = dir;
    let g: GuildSnapshot = match dir.find_guild_index(cfg.guild_id) {
        Some(i) => dir.guilds.remove(i),
        None => {
            return Err(ResolutionError::GuildNotFound { guild_id: cfg.guild_id });
        },
    };

    let interview_marks: ChannelSnapshot = match g.find_channel(cfg.channels.interview_marks_id) {
        Some(c) => *c,
        None => {
            return Err(
                ResolutionError::ChannelNotFound { channel_id: cfg.channels.interview_marks_id },
            );
        },
    };

    let interviewers = collect_present_roles(&g, &cfg.roles.interviewer_ids);
    if interviewers.len() == 0 {
        return Err(ResolutionError::InterviewerRolesNotFound);
    }

    if !g.has_role(cfg.roles.pending_interview_id) {
        return Err(
            ResolutionError::RoleNotFound {
                key: RoleKey::PendingInterview,
                role_id: cfg.roles.pending_interview_id,
            },
        );
    }
    if !g.has_role(cfg.roles.ongoing_interview_id) {
        return Err(
            ResolutionError::RoleNotFound {
                key: RoleKey::OngoingInterview,
                role_id: cfg.roles.ongoing_interview_id,
            },
        );
    }
    if !g.has_role(cfg.roles.text_verified_id) {
        return Err(
            ResolutionError::RoleNotFound {
                key: RoleKey::TextVerified,
                role_id: cfg.roles.text_verified_id,
            },
        );
    }
    if !g.has_role(cfg.roles.id_verified_id) {
        return Err(
            ResolutionError::RoleNotFound {
                key: RoleKey::IdVerified,
                role_id: cfg.roles.id_verified_id,
            },
        );
    }

    Ok(
        OperatingContext {
            guild: g,
            channels: Channels { interview_marks },
            roles: Roles {
                interviewers,
                pending_interview: cfg.roles.pending_interview_id,
                ongoing_interview: cfg.roles.ongoing_interview_id,
                text_verified: cfg.roles.text_verified_id,
                id_verified: cfg.roles.id_verified_id,
            },
        },
    )
}

/// Context completeness: resolution succeeds exactly when the guild, the
/// announcement channel, every singular role, and a non-empty interviewer
/// role set all resolve; and when any single entity is missing, the reported
/// error names the first missing entity in lookup order.
pub proof fn lemma_context_completeness(cfg: Discord, dir: DirectorySnapshot)
    ensures
        spec_resolvable(cfg, dir) <==> {
            let g = dir.spec_guild(cfg.guild_id);
            &&& dir.spec_has_guild(cfg.guild_id)
            &&& g.spec_has_channel(cfg.channels.interview_marks_id)
            &&& spec_present_roles(g, cfg.roles.interviewer_ids@).len() > 0
            &&& g.spec_has_role(cfg.roles.pending_interview_id)
            &&& g.spec_has_role(cfg.roles.ongoing_interview_id)
            &&& g.spec_has_role(cfg.roles.text_verified_id)
            &&& g.spec_has_role(cfg.roles.id_verified_id)
        },
        !dir.spec_has_guild(cfg.guild_id) ==> spec_resolution_error(cfg, dir)
            == (ResolutionError::GuildNotFound { guild_id: cfg.guild_id }),
        dir.spec_has_guild(cfg.guild_id) && !dir.spec_guild(cfg.guild_id).spec_has_channel(
            cfg.channels.interview_marks_id,
        ) ==> spec_resolution_error(cfg, dir) == (ResolutionError::ChannelNotFound {
            channel_id: cfg.channels.interview_marks_id,
        }),
        dir.spec_has_guild(cfg.guild_id) && dir.spec_guild(cfg.guild_id).spec_has_channel(
            cfg.channels.interview_marks_id,
        ) && spec_present_roles(dir.spec_guild(cfg.guild_id), cfg.roles.interviewer_ids@).len()
            == 0 ==> spec_resolution_error(cfg, dir) == ResolutionError::InterviewerRolesNotFound,
{
}

} // verus!
