use bouncer::config::{Discord, DiscordChannels, DiscordRoles};
use bouncer::context::resolve;
use bouncer::database::UserStatus;
use bouncer::engine::{handle_message, IgnoreReason, MessageDisposition, MessageFacts};
use bouncer::snapshot::{ChannelSnapshot, DirectorySnapshot, GuildSnapshot};
use bouncer::state::BouncerState;
use bouncer::store::RecordStore;

fn populated_state() -> BouncerState {
    let dir = DirectorySnapshot {
        guilds: vec![GuildSnapshot {
            id: 10,
            owner_id: 1,
            channels: vec![
                ChannelSnapshot { id: 100, nsfw: true },
                ChannelSnapshot { id: 101, nsfw: false },
            ],
            roles: vec![500, 501, 502, 503, 504],
        }],
    };
    let cfg = Discord {
        token: "example-token".to_string(),
        guild_id: 10,
        channels: DiscordChannels { interview_marks_id: 100 },
        roles: DiscordRoles {
            interviewer_ids: vec![500],
            pending_interview_id: 501,
            ongoing_interview_id: 502,
            text_verified_id: 503,
            id_verified_id: 504,
        },
    };
    let ctx = resolve(&cfg, dir).unwrap();
    let mut state = BouncerState::new(RecordStore::new());
    state.set_context(ctx);
    state
}

fn qualifying_facts(sender_id: u64, timestamp: i64) -> MessageFacts {
    MessageFacts {
        is_regular: true,
        channel: Some(ChannelSnapshot { id: 100, nsfw: true }),
        sender_id,
        sender_is_bot: false,
        sender_roles: vec![],
        timestamp,
    }
}

#[test]
fn first_qualifying_message_creates_a_pending_record() {
    let mut state = populated_state();
    let d = handle_message(&mut state, &qualifying_facts(42, 1000));
    assert_eq!(d, MessageDisposition::Enrolled);
    let record = state.store.find(42).unwrap();
    assert_eq!(record.user_id, 42);
    assert_eq!(record.status, UserStatus::Pending);
    assert_eq!(record.mark_date, 1000);
    assert_eq!(state.store.record_count(), 1);
}

#[test]
fn second_message_from_the_same_user_adds_no_record() {
    let mut state = populated_state();
    assert_eq!(handle_message(&mut state, &qualifying_facts(42, 1000)), MessageDisposition::Enrolled);
    assert_eq!(
        handle_message(&mut state, &qualifying_facts(42, 2000)),
        MessageDisposition::AlreadyEnrolled
    );
    assert_eq!(state.store.record_count(), 1);
    assert_eq!(state.store.find(42).unwrap().mark_date, 1000);
}

#[test]
fn repeated_first_messages_leave_exactly_one_pending_record() {
    let mut state = populated_state();
    for t in 0..5i64 {
        handle_message(&mut state, &qualifying_facts(42, t));
    }
    assert_eq!(state.store.record_count(), 1);
    assert_eq!(state.store.find(42).unwrap().status, UserStatus::Pending);
}

#[test]
fn distinct_users_each_get_a_record() {
    let mut state = populated_state();
    assert_eq!(handle_message(&mut state, &qualifying_facts(42, 1)), MessageDisposition::Enrolled);
    assert_eq!(handle_message(&mut state, &qualifying_facts(43, 2)), MessageDisposition::Enrolled);
    assert_eq!(state.store.record_count(), 2);
}

#[test]
fn messages_are_deferred_until_the_context_is_populated() {
    let mut state = BouncerState::new(RecordStore::new());
    let d = handle_message(&mut state, &qualifying_facts(42, 1000));
    assert_eq!(d, MessageDisposition::Deferred);
    assert_eq!(state.store.record_count(), 0);
}

#[test]
fn system_messages_are_ignored() {
    let mut state = populated_state();
    let mut facts = qualifying_facts(42, 1000);
    facts.is_regular = false;
    let d = handle_message(&mut state, &facts);
    assert_eq!(d, MessageDisposition::Ignored(IgnoreReason::SystemMessage));
    assert_eq!(state.store.record_count(), 0);
}

#[test]
fn messages_outside_a_guild_are_ignored() {
    let mut state = populated_state();
    let mut facts = qualifying_facts(42, 1000);
    facts.channel = None;
    let d = handle_message(&mut state, &facts);
    assert_eq!(d, MessageDisposition::Ignored(IgnoreReason::NotInGuild));
}

#[test]
fn messages_in_an_unflagged_channel_are_ignored() {
    let mut state = populated_state();
    let mut facts = qualifying_facts(42, 1000);
    facts.channel = Some(ChannelSnapshot { id: 101, nsfw: false });
    let d = handle_message(&mut state, &facts);
    assert_eq!(d, MessageDisposition::Ignored(IgnoreReason::ChannelNotEligible));
}

#[test]
fn messages_from_the_guild_owner_are_ignored() {
    let mut state = populated_state();
    let facts = qualifying_facts(1, 1000);
    let d = handle_message(&mut state, &facts);
    assert_eq!(d, MessageDisposition::Ignored(IgnoreReason::GuildOwner));
}

#[test]
fn messages_from_bots_are_ignored() {
    let mut state = populated_state();
    let mut facts = qualifying_facts(42, 1000);
    facts.sender_is_bot = true;
    let d = handle_message(&mut state, &facts);
    assert_eq!(d, MessageDisposition::Ignored(IgnoreReason::BotAccount));
}

#[test]
fn messages_from_interviewers_are_ignored() {
    let mut state = populated_state();
    let mut facts = qualifying_facts(42, 1000);
    facts.sender_roles = vec![600, 500];
    let d = handle_message(&mut state, &facts);
    assert_eq!(d, MessageDisposition::Ignored(IgnoreReason::Interviewer));
}

#[test]
fn owner_exemption_is_reported_before_the_bot_exemption() {
    let mut state = populated_state();
    let mut facts = qualifying_facts(1, 1000);
    facts.sender_is_bot = true;
    let d = handle_message(&mut state, &facts);
    assert_eq!(d, MessageDisposition::Ignored(IgnoreReason::GuildOwner));
}
