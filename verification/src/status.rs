//! The three states of a task and the integer codes under which they are
//! persisted.

use vstd::prelude::*;
use vstd::std_specs::convert::FromSpecImpl;

verus! {

/// Where a task stands in its lifecycle.
#[derive(Clone, Copy, Debug, PartialEq, Eq, Structural)]
pub enum TaskStatus {
    /// Nobody has begun to work on the task.
    NotStarted,
    /// Work on the task has begun and is not finished.
    InProgress,
    /// The task is finished.
    Completed,
}

/// Whether `code` is one of the integers that stand for a status.
pub open spec fn is_status_code(code: int) -> bool {
    code == 0 || code == 1 || code == 9
}

impl TaskStatus {
    /// The integer under which the status is stored.
    pub open spec fn spec_code(self) -> int {
        match self {
            TaskStatus::NotStarted => 0,
            TaskStatus::InProgress => 1,
            TaskStatus::Completed => 9,
        }
    }

    /// The status that a stored integer stands for, if it stands for one.
    pub open spec fn spec_from_code(code: int) -> Option<TaskStatus> {
        if code == 0 {
            Some(TaskStatus::NotStarted)
        } else if code == 1 {
            Some(TaskStatus::InProgress)
        } else if code == 9 {
            Some(TaskStatus::Completed)
        } else {
            None
        }
    }

    /// The integer under which this status is stored.
    pub fn code(self) -> (c: i32)
        ensures
            c == self.spec_code(),
    {
        match self {
            TaskStatus::NotStarted => 0,
            TaskStatus::InProgress => 1,
            TaskStatus::Completed => 9,
        }
    }

    /// Reads a stored integer back; `None` for an integer that stands for no
    /// status.
    pub fn from_code(code: i32) -> (s: Option<TaskStatus>)
        ensures
            s == Self::spec_from_code(code as int),
    {
        if code == 0 {
            Some(TaskStatus::NotStarted)
        } else if code == 1 {
            Some(TaskStatus::InProgress)
        } else if code == 9 {
            Some(TaskStatus::Completed)
        } else {
            None
        }
    }
}

impl From<TaskStatus> for i32 {
    fn from(status: TaskStatus) -> (code: i32) {
        status.code()
    }
}

impl FromSpecImpl<TaskStatus> for i32 {
    open spec fn obeys_from_spec() -> bool {
        true
    }

    open spec fn from_spec(status: TaskStatus) -> i32 {
        status.spec_code() as i32
    }
}

/// Reading back the code of a status gives that status, and the codes are
/// exactly the integers that stand for one.
pub proof fn lemma_code_round_trip(status: TaskStatus, code: int)
    ensures
        TaskStatus::spec_from_code(status.spec_code()) == Some(status),
        is_status_code(status.spec_code()),
        is_status_code(code) <==> TaskStatus::spec_from_code(code) is Some,
        TaskStatus::spec_from_code(code) matches Some(s) ==> s.spec_code() == code,
{
}

} // verus!
