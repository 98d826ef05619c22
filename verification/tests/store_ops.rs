use bouncer::database::{Interview, InterviewType, User, UserStatus};
use bouncer::store::{RecordStore, StoreError};

#[test]
fn a_fresh_store_is_empty() {
    let store = RecordStore::new();
    assert_eq!(store.record_count(), 0);
    assert_eq!(store.find(1), None);
    assert_eq!(store.find_interview(1), None);
}

#[test]
fn insert_pending_creates_the_record() {
    let mut store = RecordStore::new();
    let created = store.insert_pending(42, 1000).unwrap();
    assert_eq!(created, User { user_id: 42, status: UserStatus::Pending, mark_date: 1000 });
    assert_eq!(store.find(42), Some(created));
    assert_eq!(store.record_count(), 1);
}

#[test]
fn insert_pending_refuses_a_duplicate() {
    let mut store = RecordStore::new();
    store.insert_pending(42, 1000).unwrap();
    let second = store.insert_pending(42, 2000);
    assert_eq!(second, Err(StoreError::AlreadyExists));
    assert_eq!(store.record_count(), 1);
    assert_eq!(store.find(42).unwrap().mark_date, 1000);
}

#[test]
fn set_status_updates_the_record_and_keeps_its_mark_date() {
    let mut store = RecordStore::new();
    store.insert_pending(42, 1000).unwrap();
    store.set_status(42, UserStatus::Ongoing).unwrap();
    let record = store.find(42).unwrap();
    assert_eq!(record.status, UserStatus::Ongoing);
    assert_eq!(record.mark_date, 1000);
}

#[test]
fn set_status_refuses_an_unknown_user() {
    let mut store = RecordStore::new();
    let r = store.set_status(42, UserStatus::Approved);
    assert_eq!(r, Err(StoreError::NotEnrolled));
    assert_eq!(store.record_count(), 0);
}

#[test]
fn record_interview_requires_a_verification_record() {
    let mut store = RecordStore::new();
    let r = store.record_interview(Interview {
        id: 1,
        user_id: 7,
        interviewer_id: 2,
        kind: InterviewType::Text,
        interview_date: 60,
    });
    assert_eq!(r, Err(StoreError::NotEnrolled));
    assert_eq!(store.find_interview(7), None);
}

#[test]
fn find_interview_returns_the_most_recent_record() {
    let mut store = RecordStore::new();
    store.insert_pending(7, 50).unwrap();
    let first = Interview {
        id: 1,
        user_id: 7,
        interviewer_id: 2,
        kind: InterviewType::Text,
        interview_date: 60,
    };
    let second = Interview {
        id: 2,
        user_id: 7,
        interviewer_id: 3,
        kind: InterviewType::ID,
        interview_date: 70,
    };
    store.record_interview(first).unwrap();
    store.record_interview(second).unwrap();
    assert_eq!(store.find_interview(7), Some(second));
}

#[test]
fn records_of_distinct_users_are_independent() {
    let mut store = RecordStore::new();
    store.insert_pending(1, 10).unwrap();
    store.insert_pending(2, 20).unwrap();
    assert_eq!(store.record_count(), 2);
    assert_eq!(store.find(1).unwrap().mark_date, 10);
    assert_eq!(store.find(2).unwrap().mark_date, 20);
    store.set_status(1, UserStatus::Rejected).unwrap();
    assert_eq!(store.find(2).unwrap().status, UserStatus::Pending);
}
