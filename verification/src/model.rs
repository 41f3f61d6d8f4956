//! The task table as a mathematical value, and what each statement does
//! to it.
//!
//! A table is a map from id to row, together with the last id that the table
//! has given out. Ids are given out in ascending order and never twice.

use vstd::prelude::*;
use crate::db::TaskView;
use crate::lifecycle::{StatusUpdateView, Transition};
use crate::status::TaskStatus;

verus! {

/// The row that an insertion makes: not started, created at `now`, due at
/// `due_at`, with neither lifecycle timestamp.
pub open spec fn fresh_row(id: int, task: Seq<char>, due_at: Seq<char>, now: Seq<char>) -> TaskView {
    TaskView {
        id,
        task,
        status: TaskStatus::NotStarted.spec_code(),
        created_at: Some(now),
        due_at: Some(due_at),
        started_at: None,
        done_at: None,
    }
}

/// The task table as a mathematical value.
pub struct TableView {
    /// The rows, each under its id.
    pub rows: Map<int, TaskView>,
    /// The last id that the table gave out; 0 before the first insertion.
    pub last_id: int,
}

impl TableView {
    /// What holds of every table: each row stands under its own id, ids begin
    /// at 1, none is beyond the last one given out, and each status code
    /// stands for a status.
    pub open spec fn wf(self) -> bool {
        &&& 0 <= self.last_id <= i64::MAX
        &&& forall|id: int| #[trigger]
            self.rows.contains_key(id) ==> {
                &&& 1 <= id <= self.last_id
                &&& self.rows[id].id == id
                &&& self.rows[id].has_status()
            }
    }

    /// The table without rows that has given out no id.
    pub open spec fn empty() -> TableView {
        TableView { rows: Map::empty(), last_id: 0 }
    }

    /// Whether the table has given out every id there is.
    pub open spec fn full(self) -> bool {
        self.last_id >= i64::MAX
    }

    /// The id that the next insertion gives out.
    pub open spec fn next_id(self) -> int {
        self.last_id + 1
    }

    /// The table after the insertion of a task.
    pub open spec fn inserted(self, task: Seq<char>, due_at: Seq<char>, now: Seq<char>) -> TableView {
        TableView {
            rows: self.rows.insert(self.next_id(), fresh_row(self.next_id(), task, due_at, now)),
            last_id: self.next_id(),
        }
    }

    /// The row with the given id, if there is one.
    pub open spec fn fetch(self, id: int) -> Option<TaskView> {
        if self.rows.contains_key(id) {
            Some(self.rows[id])
        } else {
            None
        }
    }

    /// The table after `update` has been written into the row with the given
    /// id; the same table where no row has that id.
    pub open spec fn updated(self, id: int, update: StatusUpdateView) -> TableView {
        if self.rows.contains_key(id) {
            TableView { rows: self.rows.insert(id, self.rows[id].updated(update)), ..self }
        } else {
            self
        }
    }

    /// The table without the row with the given id.
    pub open spec fn removed(self, id: int) -> TableView {
        TableView { rows: self.rows.remove(id), ..self }
    }

    /// How many rows a statement that addresses the row with the given id
    /// touches.
    pub open spec fn rows_affected(self, id: int) -> int {
        if self.rows.contains_key(id) {
            1
        } else {
            0
        }
    }

    /// Whether the table holds exactly `rows`, and has given out no id beyond
    /// that of the last of them.
    pub open spec fn holds_exactly(self, rows: Seq<TaskView>) -> bool {
        &&& forall|i: int|
            0 <= i < rows.len() ==> self.fetch((#[trigger] rows[i]).id) == Some(rows[i])
        &&& forall|id: int| #[trigger]
            self.rows.contains_key(id) ==> exists|i: int| 0 <= i < rows.len() && rows[i].id == id
        &&& self.last_id == if rows.len() == 0 {
            0
        } else {
            rows.last().id
        }
    }

    /// Whether `list` holds exactly the rows whose status code is `status`,
    /// each once, in ascending order of their ids.
    pub open spec fn lists(self, status: int, list: Seq<TaskView>) -> bool {
        &&& forall|i: int, j: int| 0 <= i < j < list.len() ==> list[i].id < list[j].id
        &&& forall|i: int|
            0 <= i < list.len() ==> {
                &&& self.rows.contains_key(#[trigger] list[i].id)
                &&& self.rows[list[i].id] == list[i]
                &&& list[i].status == status
            }
        &&& forall|id: int| #[trigger]
            self.rows.contains_key(id) && self.rows[id].status == status ==> exists|i: int|
                0 <= i < list.len() && list[i].id == id
    }
}

/// Whether `rows` can be the rows of a table: their ids begin at 1 or above
/// and ascend strictly, and each status code stands for a status.
pub open spec fn loadable(rows: Seq<TaskView>) -> bool {
    &&& forall|i: int| 0 <= i < rows.len() ==> 1 <= (#[trigger] rows[i]).id && rows[i].has_status()
    &&& forall|i: int, j: int| 0 <= i < j < rows.len() ==> rows[i].id < rows[j].id
}

/// A [`Statement`] as a mathematical value.
pub enum StatementView {
    Insert { task: Seq<char>, due_at: Seq<char> },
    Update { id: int, transition: Transition },
    Delete { id: int },
}

impl TableView {
    /// Whether the table refuses `statement`. It refuses an insertion once it
    /// has given out every id; it refuses no update and no deletion.
    pub open spec fn refuses(self, statement: StatementView) -> bool {
        statement is Insert && self.full()
    }

    /// The table after `statement`, which the table does not refuse, has run
    /// at the time `now`.
    pub open spec fn executed(self, statement: StatementView, now: Seq<char>) -> TableView {
        match statement {
            StatementView::Insert { task, due_at } => self.inserted(task, due_at, now),
            StatementView::Update { id, transition } => self.updated(
                id,
                transition.spec_update(now),
            ),
            StatementView::Delete { id } => self.removed(id),
        }
    }

    /// How many rows `statement`, which the table does not refuse, touches.
    pub open spec fn touched(self, statement: StatementView) -> int {
        match statement {
            StatementView::Insert { task, due_at } => 1,
            StatementView::Update { id, transition } => self.rows_affected(id),
            StatementView::Delete { id } => self.rows_affected(id),
        }
    }
}

} // verus!
