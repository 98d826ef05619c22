//! The record store: a table of verification records keyed by user id
//! (unique), and a table of interview records referencing it. The store — not
//! its callers — enforces the uniqueness invariant: `insert_pending` is an
//! atomic insert-if-absent, so concurrent enrollment attempts for one user
//! serialize here and exactly one succeeds.

use vstd::prelude::*;
use vstd::pervasive::VecAdditionalExecFns;

use crate::database::{Interview, User, UserStatus};

verus! {

/// Store-level failures that are expected, non-exceptional outcomes.
/// Persistence-layer faults (I/O) belong to the adapter that talks to the
/// real backing storage, not to the store's contract.
#[derive(Clone, Copy, PartialEq, Eq, Structural, Debug)]
pub enum StoreError {
    /// A verification record for the user already exists.
    AlreadyExists,
    /// No verification record for the user exists, and one is needed.
    NotEnrolled,
}

/// How many verification records a table holds for one user.
pub open spec fn spec_record_count(s: Seq<User>, user_id: i64) -> nat
    decreases s.len(),
{
    if s.len() == 0 {
        0
    } else {
        spec_record_count(s.drop_last(), user_id) + if s.last().user_id == user_id {
            1nat
        } else {
            0nat
        }
    }
}

/// The most recent verification record for one user: the last matching row.
pub open spec fn spec_lookup(s: Seq<User>, user_id: i64) -> Option<User>
    decreases s.len(),
{
    if s.len() == 0 {
        None
    } else if s.last().user_id == user_id {
        Some(s.last())
    } else {
        spec_lookup(s.drop_last(), user_id)
    }
}

/// The most recent interview record for one user: the last matching row.
pub open spec fn spec_lookup_interview(s: Seq<Interview>, user_id: i64) -> Option<Interview>
    decreases s.len(),
{
    if s.len() == 0 {
        None
    } else if s.last().user_id == user_id {
        Some(s.last())
    } else {
        spec_lookup_interview(s.drop_last(), user_id)
    }
}

/// A present record means a positive count, and a missing one a zero count.
pub proof fn lemma_lookup_count(s: Seq<User>, user_id: i64)
    ensures
        spec_lookup(s, user_id) is Some <==> spec_record_count(s, user_id) > 0,
    decreases s.len(),
{
    if s.len() > 0 {
        lemma_lookup_count(s.drop_last(), user_id);
    }
}

/// The persistent table of verification and interview records.
pub struct RecordStore {
    users: Vec<User>,
    interviews: Vec<Interview>,
}

impl RecordStore {
    /// The verification records, in insertion order.
    pub closed spec fn records(self) -> Seq<User> {
        self.users@
    }

    /// The interview records, in insertion order.
    pub closed spec fn interviews(self) -> Seq<Interview> {
        self.interviews@
    }

    /// The store's invariant: at most one verification record per user, and
    /// every interview record references an existing verification record.
    pub open spec fn wf(self) -> bool {
        &&& forall|i: int, j: int|
            0 <= i < j < self.records().len() ==> self.records()[i].user_id
                != self.records()[j].user_id
        &&& forall|k: int|
            0 <= k < self.interviews().len() ==> #[trigger] spec_lookup(
                self.records(),
                self.interviews()[k].user_id,
            ) is Some
    }

    /// An empty store.
    pub fn new() -> (s: Self)
        ensures
            s.records() == Seq::<User>::empty(),
            s.interviews() == Seq::<Interview>::empty(),
            s.wf(),
    {
        RecordStore { users: Vec::new(), interviews: Vec::new() }
    }

    /// How many verification records the store holds.
    pub fn record_count(&self) -> (n: usize)
        ensures
            n == self.records().len(),
    {
        self.users.len()
    }

    /// The verification record of one user, if any.
    pub fn find(&self, user_id: i64) -> (r: Option<User>)
        ensures
            r == spec_lookup(self.records(), user_id),
    {
        let mut i: usize = self.users.len();
        proof {
            assert(self.users@.take(i as int) =~= self.users@);
        }
        while i > 0
            invariant
                0 <= i <= self.users@.len(),
                spec_lookup(self.users@.take(i as int), user_id) == spec_lookup(
                    self.users@,
                    user_id,
                ),
            decreases i,
        {
            proof {
                assert(self.users@.take(i as int).drop_last() =~= self.users@.take(i - 1));
                assert(self.users@.take(i as int).last() == self.users@[i - 1]);
            }
            if self.users[i - 1].user_id == user_id {
                return Some(self.users[i - 1]);
            }
            i = i - 1;
        }
        proof {
            assert(self.users@.take(0) =~= Seq::<User>::empty());
        }
        None
    }

    /// The most recent interview record of one user, if any.
    pub fn find_interview(&self, user_id: i64) -> (r: Option<Interview>)
        ensures
            r == spec_lookup_interview(self.interviews(), user_id),
    {
        let mut i: usize = self.interviews.len();
        proof {
            assert(self.interviews@.take(i as int) =~= self.interviews@);
        }
        while i > 0
            invariant
                0 <= i <= self.interviews@.len(),
                spec_lookup_interview(self.interviews@.take(i as int), user_id)
                    == spec_lookup_interview(self.interviews@, user_id),
            decreases i,
        {
            proof {
                assert(self.interviews@.take(i as int).drop_last() =~= self.interviews@.take(
                    i - 1,
                ));
                assert(self.interviews@.take(i as int).last() == self.interviews@[i - 1]);
            }
            if self.interviews[i - 1].user_id == user_id {
                return Some(self.interviews[i - 1]);
            }
            i = i - 1;
        }
        proof {
            assert(self.interviews@.take(0) =~= Seq::<Interview>::empty());
        }
        None
    }

    /// Atomic insert-if-absent of a fresh `Pending` record.
    ///
    /// Exactly one of any set of concurrent calls for the same user succeeds;
    /// the others observe `AlreadyExists` and the table is unchanged for
    /// them. The timestamp records when the row was created.
    pub fn insert_pending(&mut self, user_id: i64, mark_date: i64) -> (r: Result<User, StoreError>)
        requires
            old(self).wf(),
        ensures
            final(self).wf(),
            final(self).interviews() == old(self).interviews(),
            spec_lookup(old(self).records(), user_id) is Some ==> r == Err::<User, StoreError>(
                StoreError::AlreadyExists,
            ) && final(self).records() == old(self).records(),
            spec_lookup(old(self).records(), user_id) is None ==> r == Ok::<User, StoreError>(
                (User { user_id, status: UserStatus::Pending, mark_date }),
            ) && final(self).records() == old(self).records().push(
                (User { user_id, status: UserStatus::Pending, mark_date }),
            ),
    {
        if self.find(user_id).is_some() {
            return Err(StoreError::AlreadyExists);
        }
        let row = User { user_id, status: UserStatus::Pending, mark_date };
        proof {
            lemma_lookup_take_prefix(self.users@, user_id);
            assert forall|k: int| 0 <= k < self.interviews@.len() implies #[trigger] spec_lookup(
                self.users@.push(row),
                self.interviews@[k].user_id,
            ) is Some by {
                lemma_lookup_push_other(self.users@, row, self.interviews@[k].user_id);
            }
        }
        self.users.push(row);
        Ok(row)
    }

    /// Updates the status of one user's record, as the interview-completion
    /// path does. Fails, leaving the table unchanged, when the user has no
    /// record.
    #[verifier::loop_isolation(false)]
    pub fn set_status(&mut self, user_id: i64, status: UserStatus) -> (r: Result<(), StoreError>)
        requires
            old(self).wf(),
        ensures
            final(self).wf(),
            final(self).interviews() == old(self).interviews(),
            spec_lookup(old(self).records(), user_id) is None ==> r == Err::<(), StoreError>(
                StoreError::NotEnrolled,
            ) && final(self).records() == old(self).records(),
            spec_lookup(old(self).records(), user_id) matches Some(u) ==> r == Ok::<
                (),
                StoreError,
            >(()) && exists|i: int|
                {
                    &&& 0 <= i < old(self).records().len()
                    &&& old(self).records()[i] == u
                    &&& final(self).records() == old(self).records().update(
                        i,
                        (User { user_id, status, mark_date: u.mark_date }),
                    )
                },
            spec_lookup(old(self).records(), user_id) matches Some(u) ==> spec_lookup(
                final(self).records(),
                user_id,
            ) == Some(User { user_id, status, mark_date: u.mark_date }),
    {
        let ghost old_users = self.users@;
        let n = self.users.len();
        let mut i: usize = n;
        proof {
            assert(self.users@.take(i as int) =~= self.users@);
        }
        while i > 0
            invariant
                0 <= i <= n,
                *self == *old(self),
                spec_lookup(self.users@.take(i as int), user_id) == spec_lookup(
                    self.users@,
                    user_id,
                ),
            decreases i,
        {
            proof {
                assert(self.users@.take(i as int).drop_last() =~= self.users@.take(i - 1));
                assert(self.users@.take(i as int).last() == self.users@[i - 1]);
            }
            if self.users[i - 1].user_id == user_id {
                let old_row = self.users[i - 1];
                let new_row = User { user_id, status, mark_date: old_row.mark_date };
                proof {
                    assert(spec_lookup(old_users, user_id) == Some(old_row));
                }
                self.users.set(i - 1, new_row);
                proof {
                    lemma_update_preserves_store(old_users, self.interviews@, i - 1, new_row);
                    lemma_lookup_update_match(old_users, i - 1, new_row, user_id);
                    assert(old_users[i - 1] == old_row);
                    assert(self.users@ == old_users.update(i - 1, new_row));
                }
                return Ok(());
            }
            i = i - 1;
        }
        proof {
            assert(self.users@.take(0) =~= Seq::<User>::empty());
        }
        Err(StoreError::NotEnrolled)
    }

    /// Appends an interview record. Fails, leaving the tables unchanged, when
    /// the interviewed user has no verification record — every interview
    /// record must reference one.
    pub fn record_interview(&mut self, interview: Interview) -> (r: Result<(), StoreError>)
        requires
            old(self).wf(),
        ensures
            final(self).wf(),
            final(self).records() == old(self).records(),
            spec_lookup(old(self).records(), interview.user_id) is None ==> r == Err::<
                (),
                StoreError,
            >(StoreError::NotEnrolled) && final(self).interviews() == old(self).interviews(),
            spec_lookup(old(self).records(), interview.user_id) is Some ==> r == Ok::<
                (),
                StoreError,
            >(()) && final(self).interviews() == old(self).interviews().push(interview),
    {
        if self.find(interview.user_id).is_none() {
            return Err(StoreError::NotEnrolled);
        }
        self.interviews.push(interview);
        Ok(())
    }
}

/// Looking a user up in a table that does not contain it, extended by one
/// row for a different user, still fails; extended by a row for the user,
/// it finds that row.
proof fn lemma_lookup_push_other(s: Seq<User>, row: User, user_id: i64)
    requires
        spec_lookup(s, user_id) is Some || row.user_id == user_id,
    ensures
        spec_lookup(s.push(row), user_id) is Some,
{
    assert(s.push(row).drop_last() =~= s);
    assert(s.push(row).last() == row);
}

/// A user absent from the whole table is absent from every prefix.
proof fn lemma_lookup_take_prefix(s: Seq<User>, user_id: i64)
    ensures
        spec_lookup(s, user_id) is None ==> forall|i: int|
            0 <= i < s.len() ==> s[i].user_id != user_id,
    decreases s.len(),
{
    if s.len() > 0 {
        lemma_lookup_take_prefix(s.drop_last(), user_id);
        assert forall|i: int|
            spec_lookup(s, user_id) is None && 0 <= i < s.len() implies s[i].user_id
            != user_id by {
            if i < s.len() - 1 {
                assert(s.drop_last()[i] == s[i]);
            }
        }
    }
}

/// Replacing a row by one with the same user id preserves the store
/// invariant.
proof fn lemma_update_preserves_store(
    users: Seq<User>,
    interviews: Seq<Interview>,
    at: int,
    new_row: User,
)
    requires
        0 <= at < users.len(),
        users[at].user_id == new_row.user_id,
        forall|i: int, j: int| 0 <= i < j < users.len() ==> users[i].user_id != users[j].user_id,
        forall|k: int|
            0 <= k < interviews.len() ==> #[trigger] spec_lookup(
                users,
                interviews[k].user_id,
            ) is Some,
    ensures
        forall|i: int, j: int|
            0 <= i < j < users.update(at, new_row).len() ==> users.update(at, new_row)[i].user_id
                != users.update(at, new_row)[j].user_id,
        forall|k: int|
            0 <= k < interviews.len() ==> #[trigger] spec_lookup(
                users.update(at, new_row),
                interviews[k].user_id,
            ) is Some,
{
    assert forall|k: int| 0 <= k < interviews.len() implies #[trigger] spec_lookup(
        users.update(at, new_row),
        interviews[k].user_id,
    ) is Some by {
        lemma_lookup_update_same_id(users, at, new_row, interviews[k].user_id);
    }
}

/// Replacing a row by one with the same user id does not change whether any
/// lookup succeeds.
proof fn lemma_lookup_update_same_id(s: Seq<User>, at: int, new_row: User, user_id: i64)
    requires
        0 <= at < s.len(),
        s[at].user_id == new_row.user_id,
    ensures
        spec_lookup(s.update(at, new_row), user_id) is Some <==> spec_lookup(s, user_id) is Some,
    decreases s.len(),
{
    if at == s.len() - 1 {
        assert(s.update(at, new_row).drop_last() =~= s.drop_last());
        assert(s.update(at, new_row).last() == new_row);
    } else {
        assert(s.update(at, new_row).drop_last() =~= s.drop_last().update(at, new_row));
        assert(s.update(at, new_row).last() == s.last());
        lemma_lookup_update_same_id(s.drop_last(), at, new_row, user_id);
    }
}

/// After replacing the last row carrying a user id by a new row with that
/// id, the lookup returns the new row, provided no later row carries it.
proof fn lemma_lookup_update_match(s: Seq<User>, at: int, new_row: User, user_id: i64)
    requires
        0 <= at < s.len(),
        s[at].user_id == user_id,
        new_row.user_id == user_id,
        forall|i: int, j: int| 0 <= i < j < s.len() ==> s[i].user_id != s[j].user_id,
    ensures
        spec_lookup(s.update(at, new_row), user_id) == Some(new_row),
    decreases s.len(),
{
    if at == s.len() - 1 {
        assert(s.update(at, new_row).last() == new_row);
    } else {
        assert(s.update(at, new_row).drop_last() =~= s.drop_last().update(at, new_row));
        assert(s.update(at, new_row).last() == s.last());
        assert(s.last().user_id != user_id);
        lemma_lookup_update_match(s.drop_last(), at, new_row, user_id);
    }
}

} // verus!
