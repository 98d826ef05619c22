//! Persistent record types: per-user verification records and interview
//! records, together with the names under which their enumerations are
//! stored.

use vstd::prelude::*;

verus! {

/// Verification status of an enrolled user. Set to `Pending` exactly once at
/// creation; later transitions are driven by the interview-completion path.
#[derive(Clone, Copy, PartialEq, Eq, Structural, Debug)]
pub enum UserStatus {
    /// Enrolled, awaiting an interview.
    Pending,
    /// An interview is in progress.
    Ongoing,
    /// Interview concluded favourably.
    Approved,
    /// Interview concluded unfavourably.
    Rejected,
}

/// How a user was verified; determines which terminal role is restored on
/// rejoin.
#[derive(Clone, Copy, PartialEq, Eq, Structural, Debug)]
pub enum InterviewType {
    /// Verified over text.
    Text,
    /// Verified by identity document.
    ID,
}

impl Default for UserStatus {
    /// A fresh record starts out pending.
    fn default() -> (r: Self)
        ensures
            r == UserStatus::Pending,
    {
        UserStatus::Pending
    }
}

impl Default for InterviewType {
    fn default() -> (r: Self)
        ensures
            r == InterviewType::Text,
    {
        InterviewType::Text
    }
}

/// The stored name of each status value.
pub open spec fn spec_status_name(s: UserStatus) -> Seq<char> {
    match s {
        UserStatus::Pending => "pending"@,
        UserStatus::Ongoing => "ongoing"@,
        UserStatus::Approved => "approved"@,
        UserStatus::Rejected => "rejected"@,
    }
}

/// The stored name of each interview type.
pub open spec fn spec_interview_type_name(t: InterviewType) -> Seq<char> {
    match t {
        InterviewType::Text => "text"@,
        InterviewType::ID => "id"@,
    }
}

/// The status stored under a given name, if any.
pub open spec fn spec_status_from_name(s: Seq<char>) -> Option<UserStatus> {
    if s == "pending"@ {
        Some(UserStatus::Pending)
    } else if s == "ongoing"@ {
        Some(UserStatus::Ongoing)
    } else if s == "approved"@ {
        Some(UserStatus::Approved)
    } else if s == "rejected"@ {
        Some(UserStatus::Rejected)
    } else {
        None
    }
}

/// The interview type stored under a given name, if any.
pub open spec fn spec_interview_type_from_name(s: Seq<char>) -> Option<InterviewType> {
    if s == "text"@ {
        Some(InterviewType::Text)
    } else if s == "id"@ {
        Some(InterviewType::ID)
    } else {
        None
    }
}

impl UserStatus {
    /// The name under which this status is stored.
    pub fn name(&self) -> (r: &'static str)
        ensures
            r@ == spec_status_name(*self),
    {
        match self {
            UserStatus::Pending => "pending",
            UserStatus::Ongoing => "ongoing",
            UserStatus::Approved => "approved",
            UserStatus::Rejected => "rejected",
        }
    }

    /// The status stored under the given name, if any. Every stored row
    /// carries one of the four names, so `None` marks a corrupt row.
    pub fn from_name(name: &str) -> (r: Option<UserStatus>)
        ensures
            r == spec_status_from_name(name@),
            r matches Some(s) ==> name@ == spec_status_name(s),
    {
        let owned = name.to_owned();
        if owned == "pending".to_owned() {
            Some(UserStatus::Pending)
        } else if owned == "ongoing".to_owned() {
            Some(UserStatus::Ongoing)
        } else if owned == "approved".to_owned() {
            Some(UserStatus::Approved)
        } else if owned == "rejected".to_owned() {
            Some(UserStatus::Rejected)
        } else {
            None
        }
    }
}

impl InterviewType {
    /// The name under which this interview type is stored.
    pub fn name(&self) -> (r: &'static str)
        ensures
            r@ == spec_interview_type_name(*self),
    {
        match self {
            InterviewType::Text => "text",
            InterviewType::ID => "id",
        }
    }

    /// The interview type stored under the given name, if any.
    pub fn from_name(name: &str) -> (r: Option<InterviewType>)
        ensures
            r == spec_interview_type_from_name(name@),
            r matches Some(t) ==> name@ == spec_interview_type_name(t),
    {
        let owned = name.to_owned();
        if owned == "text".to_owned() {
            Some(InterviewType::Text)
        } else if owned == "id".to_owned() {
            Some(InterviewType::ID)
        } else {
            None
        }
    }
}

/// One verification record: the row the store keeps per enrolled user.
#[derive(Clone, Copy, PartialEq, Eq, Structural, Debug)]
pub struct User {
    /// Platform identifier of the user; unique per record.
    pub user_id: i64,
    /// Current verification status.
    pub status: UserStatus,
    /// When the record was created, as seconds since the epoch.
    pub mark_date: i64,
}

/// One interview record, referencing the verification record of the user it
/// concerns.
#[derive(Clone, Copy, PartialEq, Eq, Structural, Debug)]
pub struct Interview {
    /// Store-assigned identifier.
    pub id: i32,
    /// The interviewed user; must reference an existing verification record.
    pub user_id: i64,
    /// The member who conducted the interview.
    pub interviewer_id: i64,
    /// How the interview was conducted.
    pub kind: InterviewType,
    /// When the interview was conducted, as seconds since the epoch.
    pub interview_date: i64,
}

} // verus!
