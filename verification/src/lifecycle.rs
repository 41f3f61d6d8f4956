//! The transitions of a task's status and what each does to a row.
//!
//! A transition is applied whatever the status of the row is: it sets the
//! status and writes or clears one of the two lifecycle timestamps, and it
//! touches nothing else.

use vstd::prelude::*;
use crate::db::{text_view, TaskRegisterd, TaskView};
use crate::status::TaskStatus;

verus! {

/// A change of status that a user can ask for.
#[derive(Clone, Copy, Debug, PartialEq, Eq, Structural)]
pub enum Transition {
    /// Begin to work on the task.
    Start,
    /// Finish the task.
    Done,
    /// Take the task back to where nobody has begun to work on it.
    Undo,
    /// Take a finished task back into work.
    Doing,
}

/// The timestamp column that a transition writes or clears.
#[derive(Clone, Copy, Debug, PartialEq, Eq, Structural)]
pub enum StampField {
    StartedAt,
    DoneAt,
}

/// What one update statement writes into a row: the new status, and the new
/// content of one timestamp column.
#[derive(Debug)]
pub struct StatusUpdate {
    /// The status that the row gets.
    pub status: TaskStatus,
    /// The timestamp column that is written.
    pub field: StampField,
    /// What the column gets: a time, or nothing to clear it.
    pub value: Option<String>,
}

/// A [`StatusUpdate`] as a mathematical value.
pub struct StatusUpdateView {
    pub status: TaskStatus,
    pub field: StampField,
    pub value: Option<Seq<char>>,
}

impl View for StatusUpdate {
    type V = StatusUpdateView;

    open spec fn view(&self) -> StatusUpdateView {
        StatusUpdateView { status: self.status, field: self.field, value: text_view(self.value) }
    }
}

impl Transition {
    /// The status in which the transition leaves a task.
    pub open spec fn target(self) -> TaskStatus {
        match self {
            Transition::Start => TaskStatus::InProgress,
            Transition::Done => TaskStatus::Completed,
            Transition::Undo => TaskStatus::NotStarted,
            Transition::Doing => TaskStatus::InProgress,
        }
    }

    /// The timestamp column that the transition touches.
    pub open spec fn field(self) -> StampField {
        match self {
            Transition::Start => StampField::StartedAt,
            Transition::Done => StampField::DoneAt,
            Transition::Undo => StampField::StartedAt,
            Transition::Doing => StampField::DoneAt,
        }
    }

    /// Whether the transition writes the current time into its column; the
    /// other transitions clear it.
    pub open spec fn stamps(self) -> bool {
        self == Transition::Start || self == Transition::Done
    }

    /// The status from which the transition is meant to be taken. It is
    /// applied from any status; from this one it moves a task one step along
    /// its lifecycle, or one step back.
    pub open spec fn source(self) -> TaskStatus {
        match self {
            Transition::Start => TaskStatus::NotStarted,
            Transition::Done => TaskStatus::InProgress,
            Transition::Undo => TaskStatus::InProgress,
            Transition::Doing => TaskStatus::Completed,
        }
    }

    /// The update that the transition makes at the time `now`.
    pub open spec fn spec_update(self, now: Seq<char>) -> StatusUpdateView {
        match self {
            Transition::Start => StatusUpdateView::start(now),
            Transition::Done => StatusUpdateView::done(now),
            Transition::Undo => StatusUpdateView::undo(),
            Transition::Doing => StatusUpdateView::doing(),
        }
    }

    /// The update that the transition makes at the time `now`.
    pub fn update(self, now: &str) -> (update: StatusUpdate)
        ensures
            update@ == self.spec_update(now@),
    {
        match self {
            Transition::Start => StatusUpdate::start(now),
            Transition::Done => StatusUpdate::done(now),
            Transition::Undo => StatusUpdate::undo(),
            Transition::Doing => StatusUpdate::doing(),
        }
    }
}

impl StatusUpdateView {
    /// Into work: the start time is set to `now`.
    pub open spec fn start(now: Seq<char>) -> StatusUpdateView {
        StatusUpdateView {
            status: TaskStatus::InProgress,
            field: StampField::StartedAt,
            value: Some(now),
        }
    }

    /// Finished: the end time is set to `now`.
    pub open spec fn done(now: Seq<char>) -> StatusUpdateView {
        StatusUpdateView {
            status: TaskStatus::Completed,
            field: StampField::DoneAt,
            value: Some(now),
        }
    }

    /// Back to not started: the start time is cleared.
    pub open spec fn undo() -> StatusUpdateView {
        StatusUpdateView { status: TaskStatus::NotStarted, field: StampField::StartedAt, value: None }
    }

    /// Back into work: the end time is cleared.
    pub open spec fn doing() -> StatusUpdateView {
        StatusUpdateView { status: TaskStatus::InProgress, field: StampField::DoneAt, value: None }
    }
}

impl StatusUpdate {
    /// Into work: the start time is set to `now`.
    pub fn start(now: &str) -> (update: StatusUpdate)
        ensures
            update@ == StatusUpdateView::start(now@),
    {
        StatusUpdate {
            status: TaskStatus::InProgress,
            field: StampField::StartedAt,
            value: Some(now.to_owned()),
        }
    }

    /// Finished: the end time is set to `now`.
    pub fn done(now: &str) -> (update: StatusUpdate)
        ensures
            update@ == StatusUpdateView::done(now@),
    {
        StatusUpdate {
            status: TaskStatus::Completed,
            field: StampField::DoneAt,
            value: Some(now.to_owned()),
        }
    }

    /// Back to not started: the start time is cleared.
    pub fn undo() -> (update: StatusUpdate)
        ensures
            update@ == StatusUpdateView::undo(),
    {
        StatusUpdate { status: TaskStatus::NotStarted, field: StampField::StartedAt, value: None }
    }

    /// Back into work: the end time is cleared.
    pub fn doing() -> (update: StatusUpdate)
        ensures
            update@ == StatusUpdateView::doing(),
    {
        StatusUpdate { status: TaskStatus::InProgress, field: StampField::DoneAt, value: None }
    }
}

impl TaskView {
    /// The row after `update` has been written into it.
    pub open spec fn updated(self, update: StatusUpdateView) -> TaskView {
        match update.field {
            StampField::StartedAt => TaskView {
                status: update.status.spec_code(),
                started_at: update.value,
                ..self
            },
            StampField::DoneAt => TaskView {
                status: update.status.spec_code(),
                done_at: update.value,
                ..self
            },
        }
    }

    /// The row after `transition` has been applied to it at the time `now`.
    pub open spec fn after(self, transition: Transition, now: Seq<char>) -> TaskView {
        self.updated(transition.spec_update(now))
    }

    /// Whether the timestamps of the row agree with its status: work has a
    /// start time exactly when the task is past `NotStarted`, and an end time
    /// exactly when the task is `Completed`.
    pub open spec fn consistent(self) -> bool {
        &&& self.has_status()
        &&& self.started_at is Some <==> self.status != TaskStatus::NotStarted.spec_code()
        &&& self.done_at is Some <==> self.status == TaskStatus::Completed.spec_code()
    }
}

impl TaskRegisterd {
    /// Writes `update` into the row.
    pub fn apply(&mut self, update: StatusUpdate)
        ensures
            final(self)@ == old(self)@.updated(update@),
    {
        self.status = update.status.code();
        match update.field {
            StampField::StartedAt => {
                self.started_at = update.value;
            },
            StampField::DoneAt => {
                self.done_at = update.value;
            },
        }
    }
}

/// What each transition does to a row, whatever the row held before: the
/// status becomes the transition's target, the transition's own timestamp is
/// set to `now` or cleared, and every other column keeps its content.
pub proof fn lemma_transition_effect(row: TaskView, transition: Transition, now: Seq<char>)
    ensures
        transition.spec_update(now) == (StatusUpdateView {
            status: transition.target(),
            field: transition.field(),
            value: if transition.stamps() {
                Some(now)
            } else {
                None
            },
        }),
        row.after(transition, now).status == transition.target().spec_code(),
        row.after(transition, now).has_status(),
        row.after(transition, now).id == row.id,
        row.after(transition, now).task == row.task,
        row.after(transition, now).created_at == row.created_at,
        row.after(transition, now).due_at == row.due_at,
        transition == Transition::Start ==> {
            &&& row.after(transition, now).started_at == Some(now)
            &&& row.after(transition, now).done_at == row.done_at
        },
        transition == Transition::Done ==> {
            &&& row.after(transition, now).done_at == Some(now)
            &&& row.after(transition, now).started_at == row.started_at
        },
        transition == Transition::Undo ==> {
            &&& row.after(transition, now).started_at is None
            &&& row.after(transition, now).done_at == row.done_at
        },
        transition == Transition::Doing ==> {
            &&& row.after(transition, now).done_at is None
            &&& row.after(transition, now).started_at == row.started_at
        },
{
}

/// Applying a transition twice in a row leaves what applying it once leaves:
/// the later time, where the transition writes one.
pub proof fn lemma_transition_idempotent(
    row: TaskView,
    transition: Transition,
    earlier: Seq<char>,
    later: Seq<char>,
)
    ensures
        row.after(transition, earlier).after(transition, later) == row.after(transition, later),
{
}

/// A transition taken from the status it is meant for keeps the timestamps
/// of a row in agreement with its status.
pub proof fn lemma_step_keeps_consistent(row: TaskView, transition: Transition, now: Seq<char>)
    requires
        row.consistent(),
        row.status == transition.source().spec_code(),
    ensures
        row.after(transition, now).consistent(),
{
}

} // verus!
