use bouncer::config::{Discord, DiscordChannels, DiscordRoles};
use bouncer::context::{resolve, OperatingContext};
use bouncer::eligibility::{check_eligible, Eligibility, IneligibilityReason};
use bouncer::snapshot::{ChannelSnapshot, DirectorySnapshot, GuildSnapshot};

fn sample_context() -> OperatingContext {
    let dir = DirectorySnapshot {
        guilds: vec![GuildSnapshot {
            id: 10,
            owner_id: 1,
            channels: vec![ChannelSnapshot { id: 100, nsfw: true }],
            roles: vec![500, 501, 502, 503, 504],
        }],
    };
    let cfg = Discord {
        token: "example-token".to_string(),
        guild_id: 10,
        channels: DiscordChannels { interview_marks_id: 100 },
        roles: DiscordRoles {
            interviewer_ids: vec![500],
            pending_interview_id: 501,
            ongoing_interview_id: 502,
            text_verified_id: 503,
            id_verified_id: 504,
        },
    };
    resolve(&cfg, dir).unwrap()
}

#[test]
fn a_bot_that_is_also_the_requester_is_reported_as_a_bot() {
    let ctx = sample_context();
    let r = check_eligible(&ctx, true, 5, 5, &vec![500]);
    assert_eq!(r, Eligibility::Ineligible(IneligibilityReason::TargetBot));
}

#[test]
fn the_requester_cannot_interview_themself() {
    let ctx = sample_context();
    let r = check_eligible(&ctx, false, 5, 5, &vec![]);
    assert_eq!(r, Eligibility::Ineligible(IneligibilityReason::TargetSelf));
}

#[test]
fn self_interview_is_reported_before_the_interviewer_exemption() {
    let ctx = sample_context();
    let r = check_eligible(&ctx, false, 5, 5, &vec![500]);
    assert_eq!(r, Eligibility::Ineligible(IneligibilityReason::TargetSelf));
}

#[test]
fn an_interviewer_cannot_be_interviewed() {
    let ctx = sample_context();
    let r = check_eligible(&ctx, false, 5, 6, &vec![600, 500]);
    assert_eq!(r, Eligibility::Ineligible(IneligibilityReason::TargetInterviewer));
}

#[test]
fn an_ordinary_member_is_eligible() {
    let ctx = sample_context();
    let r = check_eligible(&ctx, false, 5, 6, &vec![600]);
    assert_eq!(r, Eligibility::Eligible);
}
