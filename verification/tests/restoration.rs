use bouncer::config::{Discord, DiscordChannels, DiscordRoles};
use bouncer::context::{resolve, OperatingContext};
use bouncer::database::{Interview, InterviewType};
use bouncer::engine::{handle_join, JoinDisposition};
use bouncer::snapshot::{ChannelSnapshot, DirectorySnapshot, GuildSnapshot};
use bouncer::store::RecordStore;

fn sample_context() -> OperatingContext {
    let dir = DirectorySnapshot {
        guilds: vec![GuildSnapshot {
            id: 10,
            owner_id: 1,
            channels: vec![ChannelSnapshot { id: 100, nsfw: true }],
            roles: vec![500, 501, 502, 503, 504],
        }],
    };
    let cfg = Discord {
        token: "example-token".to_string(),
        guild_id: 10,
        channels: DiscordChannels { interview_marks_id: 100 },
        roles: DiscordRoles {
            interviewer_ids: vec![500],
            pending_interview_id: 501,
            ongoing_interview_id: 502,
            text_verified_id: 503,
            id_verified_id: 504,
        },
    };
    resolve(&cfg, dir).unwrap()
}

fn store_with_interview(user_id: i64, kind: InterviewType) -> RecordStore {
    let mut store = RecordStore::new();
    store.insert_pending(user_id, 50).unwrap();
    store
        .record_interview(Interview {
            id: 1,
            user_id,
            interviewer_id: 2,
            kind,
            interview_date: 60,
        })
        .unwrap();
    store
}

#[test]
fn a_text_interview_restores_the_text_verified_role() {
    let ctx = sample_context();
    let store = store_with_interview(7, InterviewType::Text);
    let mut roles: Vec<u64> = vec![501];
    let d = handle_join(&ctx, &store, &mut roles, 7);
    assert_eq!(d, JoinDisposition::Restored { role_id: 503 });
    assert!(roles.contains(&503));
}

#[test]
fn reprocessing_the_same_join_leaves_exactly_one_grant() {
    let ctx = sample_context();
    let store = store_with_interview(7, InterviewType::Text);
    let mut roles: Vec<u64> = vec![];
    assert_eq!(handle_join(&ctx, &store, &mut roles, 7), JoinDisposition::Restored {
        role_id: 503,
    });
    assert_eq!(handle_join(&ctx, &store, &mut roles, 7), JoinDisposition::AlreadyHeld {
        role_id: 503,
    });
    assert_eq!(roles.iter().filter(|r| **r == 503).count(), 1);
}

#[test]
fn an_id_interview_restores_the_id_verified_role_once_over_two_joins() {
    let ctx = sample_context();
    let store = store_with_interview(8, InterviewType::ID);
    let mut roles: Vec<u64> = vec![];
    assert_eq!(handle_join(&ctx, &store, &mut roles, 8), JoinDisposition::Restored {
        role_id: 504,
    });
    assert_eq!(handle_join(&ctx, &store, &mut roles, 8), JoinDisposition::AlreadyHeld {
        role_id: 504,
    });
    assert_eq!(roles, vec![504]);
}

#[test]
fn a_member_never_interviewed_gets_nothing_restored() {
    let ctx = sample_context();
    let store = RecordStore::new();
    let mut roles: Vec<u64> = vec![501];
    let d = handle_join(&ctx, &store, &mut roles, 9);
    assert_eq!(d, JoinDisposition::NoRecord);
    assert_eq!(roles, vec![501]);
}

#[test]
fn the_most_recent_interview_determines_the_restored_role() {
    let ctx = sample_context();
    let mut store = RecordStore::new();
    store.insert_pending(9, 50).unwrap();
    store
        .record_interview(Interview {
            id: 1,
            user_id: 9,
            interviewer_id: 2,
            kind: InterviewType::Text,
            interview_date: 60,
        })
        .unwrap();
    store
        .record_interview(Interview {
            id: 2,
            user_id: 9,
            interviewer_id: 3,
            kind: InterviewType::ID,
            interview_date: 70,
        })
        .unwrap();
    let mut roles: Vec<u64> = vec![];
    let d = handle_join(&ctx, &store, &mut roles, 9);
    assert_eq!(d, JoinDisposition::Restored { role_id: 504 });
}
