//! The task record, the table that holds the records, and the operations
//! of the store on it.
//!
//! A [`TaskTable`] keeps its rows in memory, ordered by id. Its operations are
//! specified over its view, a [`TableView`].

use vstd::prelude::*;
use crate::lifecycle::{StatusUpdate, StatusUpdateView, Transition};
use crate::model::{loadable, StatementView, TableView};
use crate::status::{is_status_code, TaskStatus};

verus! {

/// One row of the task table.
#[derive(Debug)]
pub struct TaskRegisterd {
    /// The key of the row, given out by the table when the row is inserted.
    pub id: i64,
    /// What is to be done.
    pub task: String,
    /// The code of the task's status.
    pub status: i32,
    /// When the row was inserted.
    pub created_at: Option<String>,
    /// When the task is due.
    pub due_at: Option<String>,
    /// When work on the task began; absent while it has not.
    pub started_at: Option<String>,
    /// When the task was finished; absent while it is not.
    pub done_at: Option<String>,
}

/// A row as a mathematical value.
pub struct TaskView {
    pub id: int,
    pub task: Seq<char>,
    pub status: int,
    pub created_at: Option<Seq<char>>,
    pub due_at: Option<Seq<char>>,
    pub started_at: Option<Seq<char>>,
    pub done_at: Option<Seq<char>>,
}

/// The characters of an optional text.
pub open spec fn text_view(text: Option<String>) -> Option<Seq<char>> {
    match text {
        Some(s) => Some(s@),
        None => None,
    }
}

impl View for TaskRegisterd {
    type V = TaskView;

    open spec fn view(&self) -> TaskView {
        TaskView {
            id: self.id as int,
            task: self.task@,
            status: self.status as int,
            created_at: text_view(self.created_at),
            due_at: text_view(self.due_at),
            started_at: text_view(self.started_at),
            done_at: text_view(self.done_at),
        }
    }
}

/// A copy of an optional text.
pub fn copy_text(text: &Option<String>) -> (copy: Option<String>)
    ensures
        text_view(copy) == text_view(*text),
{
    match text {
        Some(s) => Some(s.clone()),
        None => None,
    }
}

impl Clone for TaskRegisterd {
    fn clone(&self) -> (copy: Self)
        ensures
            copy@ == self@,
    {
        TaskRegisterd {
            id: self.id,
            task: self.task.clone(),
            status: self.status,
            created_at: copy_text(&self.created_at),
            due_at: copy_text(&self.due_at),
            started_at: copy_text(&self.started_at),
            done_at: copy_text(&self.done_at),
        }
    }
}

/// What reading one nullable text column of a fetched row gave.
#[derive(Debug)]
pub enum TextColumn {
    /// The column holds this text.
    Text(String),
    /// The column holds no value.
    Null,
    /// The column is missing from the row, or does not hold text.
    Unreadable,
}

impl TextColumn {
    /// The text of the column as a row carries it: absent for a column that
    /// holds no value, and for one that could not be read.
    pub open spec fn spec_text(self) -> Option<Seq<char>> {
        match self {
            TextColumn::Text(s) => Some(s@),
            TextColumn::Null => None,
            TextColumn::Unreadable => None,
        }
    }

    /// The text of the column, if it could be read and holds one.
    pub fn text(self) -> (text: Option<String>)
        ensures
            text_view(text) == self.spec_text(),
    {
        match self {
            TextColumn::Text(s) => Some(s),
            TextColumn::Null => None,
            TextColumn::Unreadable => None,
        }
    }
}

impl TaskRegisterd {
    /// Builds the record of a fetched row from what its columns gave. The
    /// three required columns are taken as they are; each timestamp column
    /// that could not be read counts as absent.
    pub fn from_columns(
        id: i64,
        task: String,
        status: i32,
        created_at: TextColumn,
        due_at: TextColumn,
        started_at: TextColumn,
        done_at: TextColumn,
    ) -> (row: TaskRegisterd)
        ensures
            row@ == (TaskView {
                id: id as int,
                task: task@,
                status: status as int,
                created_at: created_at.spec_text(),
                due_at: due_at.spec_text(),
                started_at: started_at.spec_text(),
                done_at: done_at.spec_text(),
            }),
    {
        TaskRegisterd {
            id,
            task,
            status,
            created_at: created_at.text(),
            due_at: due_at.text(),
            started_at: started_at.text(),
            done_at: done_at.text(),
        }
    }
}

impl TaskView {
    /// Whether the status code of the row stands for a status.
    pub open spec fn has_status(self) -> bool {
        is_status_code(self.status)
    }
}

/// Why an operation of the store failed.
#[derive(Clone, Copy, Debug, PartialEq, Eq, Structural)]
pub enum StoreError {
    /// The store could not be reached.
    Connection,
    /// The store refused a statement.
    Query,
    /// No row has the id that was asked for.
    NotFound,
}

/// sqlx's `Error`. It is carried through as it is: nothing is known of
/// what it holds.
#[verifier::external_type_specification]
#[verifier::external_body]
pub struct ExSqlxError(sqlx::Error);

/// Tells the variant `RowNotFound` of sqlx's `Error`, with which the fetch of
/// one row reports that there is none, apart from the other variants. Nothing
/// is claimed of the answer.
#[verifier::external_body]
fn is_row_not_found(error: &sqlx::Error) -> (missing: bool) {
    match error {
        sqlx::Error::RowNotFound => true,
        _ => false,
    }
}

/// The kind of a failure of the store: one that happens while the store is
/// being connected is a connection failure; any later one is a failed
/// statement, but for the fetch of a single row that found none.
pub open spec fn spec_classify(connecting: bool, row_missing: bool) -> StoreError {
    if connecting {
        StoreError::Connection
    } else if row_missing {
        StoreError::NotFound
    } else {
        StoreError::Query
    }
}

/// The kind of a failure of the store, given whether it happened while
/// connecting and whether it reports that a fetch found no row.
pub fn classify(connecting: bool, row_missing: bool) -> (kind: StoreError)
    ensures
        kind == spec_classify(connecting, row_missing),
{
    if connecting {
        StoreError::Connection
    } else if row_missing {
        StoreError::NotFound
    } else {
        StoreError::Query
    }
}

/// The kind of the failure that an error of sqlx reports: a connection
/// failure while connecting; afterwards a row that was not found where the
/// error says so, and a failed statement otherwise.
pub fn store_error(error: &sqlx::Error, connecting: bool) -> (kind: StoreError)
    ensures
        kind == spec_classify(connecting, true) || kind == spec_classify(connecting, false),
        connecting <==> kind == StoreError::Connection,
{
    classify(connecting, is_row_not_found(error))
}

/// The rows of a vector as mathematical values.
pub open spec fn views(rows: Seq<TaskRegisterd>) -> Seq<TaskView> {
    Seq::new(rows.len(), |i: int| rows[i]@)
}

/// What holds of the rows that a table keeps: they stand in strictly
/// ascending order of their ids, which lie between 1 and the last id given
/// out, and each status code stands for a status.
spec fn rows_ordered(rows: Seq<TaskRegisterd>, last_id: int) -> bool {
    &&& 0 <= last_id
    &&& forall|i: int|
        0 <= i < rows.len() ==> {
            &&& 1 <= (#[trigger] rows[i]).id <= last_id
            &&& is_status_code(rows[i].status as int)
        }
    &&& forall|i: int, j: int| 0 <= i < j < rows.len() ==> rows[i].id < rows[j].id
}

spec fn has_id(rows: Seq<TaskRegisterd>, id: int) -> bool {
    exists|i: int| 0 <= i < rows.len() && (#[trigger] rows[i]).id == id
}

spec fn index_of(rows: Seq<TaskRegisterd>, id: int) -> int {
    choose|i: int| 0 <= i < rows.len() && (#[trigger] rows[i]).id == id
}

/// The map from id to row that a vector of rows stands for.
spec fn rows_map(rows: Seq<TaskRegisterd>) -> Map<int, TaskView> {
    Map::new(|id: int| has_id(rows, id), |id: int| rows[index_of(rows, id)]@)
}

/// Each row of an ordered vector is found in the map under its id.
proof fn lemma_row_in_map(rows: Seq<TaskRegisterd>, last_id: int, i: int)
    requires
        rows_ordered(rows, last_id),
        0 <= i < rows.len(),
    ensures
        rows_map(rows).contains_key(rows[i].id as int),
        rows_map(rows)[rows[i].id as int] == rows[i]@,
{
    let id = rows[i].id as int;
    assert(has_id(rows, id));
    let k = index_of(rows, id);
    assert(k == i) by {
        if k < i {
            assert(rows[k].id < rows[i].id);
        } else if i < k {
            assert(rows[i].id < rows[k].id);
        }
    }
}

/// The map of an ordered vector is a well-formed table.
proof fn lemma_map_wf(rows: Seq<TaskRegisterd>, last_id: int)
    requires
        rows_ordered(rows, last_id),
        last_id <= i64::MAX,
    ensures
        (TableView { rows: rows_map(rows), last_id }).wf(),
{
    let map = rows_map(rows);
    assert forall|id: int| #[trigger] map.contains_key(id) implies {
        &&& 1 <= id <= last_id
        &&& map[id].id == id
        &&& map[id].has_status()
    } by {
        assert(has_id(rows, id));
        let k = index_of(rows, id);
        assert(rows[k].id == id);
    }
}

/// The task table: the rows in memory, and the last id given out.
pub struct TaskTable {
    rows: Vec<TaskRegisterd>,
    last_id: i64,
}

impl View for TaskTable {
    type V = TableView;

    closed spec fn view(&self) -> TableView {
        TableView { rows: rows_map(self.rows@), last_id: self.last_id as int }
    }
}

impl TaskTable {
    #[verifier::type_invariant]
    spec fn ordered(self) -> bool {
        rows_ordered(self.rows@, self.last_id as int)
    }

    /// A table without rows.
    pub fn new() -> (table: TaskTable)
        ensures
            table@ == TableView::empty(),
            table@.wf(),
    {
        let table = TaskTable { rows: Vec::new(), last_id: 0 };
        proof {
            assert(table@.rows =~= Map::<int, TaskView>::empty()) by {
                assert forall|id: int| !has_id(table.rows@, id) by {}
            }
        }
        table
    }

    /// The table that holds the given rows, where they can be the rows of a
    /// table. The next insertion gets the id after that of the last row.
    pub fn from_rows(rows: Vec<TaskRegisterd>) -> (loaded: Option<TaskTable>)
        ensures
            match loaded {
                Some(table) => {
                    &&& loadable(views(rows@))
                    &&& table@.holds_exactly(views(rows@))
                    &&& table@.wf()
                },
                None => !loadable(views(rows@)),
            },
    {
        let mut last: i64 = 0;
        let mut i: usize = 0;
        while i < rows.len()
            invariant
                i <= rows.len(),
                0 <= last,
                last == if i == 0 {
                    0
                } else {
                    rows[i - 1].id
                },
                rows_ordered(rows@.take(i as int), last as int),
            decreases rows.len() - i,
        {
            if rows[i].id <= last || TaskStatus::from_code(rows[i].status).is_none() {
                proof {
                    let all = views(rows@);
                    if rows[i as int].id <= last {
                        if i > 0 {
                            assert(all[i - 1].id >= all[i as int].id);
                        } else {
                            assert(all[i as int].id < 1);
                        }
                    } else {
                        assert(!all[i as int].has_status());
                    }
                }
                return None;
            }
            proof {
                let before = rows@.take(i as int);
                let grown = rows@.take(i + 1);
                assert forall|a: int, b: int| 0 <= a < b < grown.len() implies grown[a].id
                    < grown[b].id by {
                    if b < i {
                        assert(before[a].id < before[b].id);
                    } else if a < i {
                        assert(before[a].id <= last);
                    }
                }
                assert forall|a: int| 0 <= a < grown.len() implies {
                    &&& 1 <= (#[trigger] grown[a]).id <= rows[i as int].id
                    &&& is_status_code(grown[a].status as int)
                } by {
                    if a < i {
                        assert(before[a].id <= last);
                    }
                }
            }
            last = rows[i].id;
            i += 1;
        }
        proof {
            assert(rows@.take(i as int) =~= rows@);
            lemma_map_wf(rows@, last as int);
            let all = views(rows@);
            assert forall|a: int| 0 <= a < all.len() implies rows_map(rows@).contains_key(
                (#[trigger] all[a]).id,
            ) && rows_map(rows@)[all[a].id] == all[a] by {
                lemma_row_in_map(rows@, last as int, a);
            }
            assert forall|id: int| #[trigger]
                rows_map(rows@).contains_key(id) implies exists|a: int|
                0 <= a < all.len() && all[a].id == id by {
                let a = index_of(rows@, id);
                assert(all[a].id == id);
            }
            assert(loadable(all)) by {
                assert forall|a: int, b: int| 0 <= a < b < all.len() implies all[a].id
                    < all[b].id by {
                    assert(rows[a].id < rows[b].id);
                }
            }
        }
        Some(TaskTable { rows, last_id: last })
    }

    /// The last id that the table gave out; 0 before the first insertion.
    pub fn last_id(&self) -> (id: i64)
        ensures
            id == self@.last_id,
            self@.wf(),
    {
        proof {
            use_type_invariant(self);
            lemma_map_wf(self.rows@, self.last_id as int);
        }
        self.last_id
    }
}

/// Where the row with the given id stands among `rows`, if it is there.
fn position(rows: &Vec<TaskRegisterd>, id: i64) -> (found: Option<usize>)
    ensures
        match found {
            Some(i) => i < rows.len() && rows[i as int].id == id,
            None => !has_id(rows@, id as int),
        },
{
    let mut i: usize = 0;
    while i < rows.len()
        invariant
            i <= rows.len(),
            forall|j: int| 0 <= j < i ==> (#[trigger] rows[j]).id != id,
        decreases rows.len() - i,
    {
        if rows[i].id == id {
            return Some(i);
        }
        i += 1;
    }
    None
}

/// Appending a row with a larger id puts that row into the map.
proof fn lemma_push_row(rows: Seq<TaskRegisterd>, last_id: int, row: TaskRegisterd)
    requires
        rows_ordered(rows, last_id),
        row.id > last_id,
        is_status_code(row.status as int),
    ensures
        rows_ordered(rows.push(row), row.id as int),
        rows_map(rows.push(row)) == rows_map(rows).insert(row.id as int, row@),
{
    let grown = rows.push(row);
    assert(rows_ordered(grown, row.id as int));
    let expected = rows_map(rows).insert(row.id as int, row@);
    assert forall|id: int| rows_map(grown).contains_key(id) <==> expected.contains_key(id) by {
        if has_id(grown, id) {
            let k = index_of(grown, id);
            if k < rows.len() {
                assert(rows[k].id == id);
            }
        }
        if has_id(rows, id) {
            let k = index_of(rows, id);
            assert(grown[k].id == id);
        }
        if id == row.id {
            assert(grown[rows.len() as int].id == id);
        }
    }
    assert forall|id: int| rows_map(grown).contains_key(id) implies rows_map(grown)[id]
        == expected[id] by {
        if id == row.id {
            lemma_row_in_map(grown, row.id as int, rows.len() as int);
        } else {
            let k = index_of(rows, id);
            assert(grown[k] == rows[k]);
            lemma_row_in_map(grown, row.id as int, k);
        }
    }
    assert(rows_map(grown) =~= expected);
}

/// Replacing a row by one with the same id replaces it in the map.
proof fn lemma_replace_row(rows: Seq<TaskRegisterd>, last_id: int, i: int, row: TaskRegisterd)
    requires
        rows_ordered(rows, last_id),
        0 <= i < rows.len(),
        row.id == rows[i].id,
        is_status_code(row.status as int),
    ensures
        rows_ordered(rows.update(i, row), last_id),
        rows_map(rows.update(i, row)) == rows_map(rows).insert(row.id as int, row@),
{
    let changed = rows.update(i, row);
    assert(rows_ordered(changed, last_id)) by {
        assert forall|a: int, b: int| 0 <= a < b < changed.len() implies changed[a].id
            < changed[b].id by {
            assert(rows[a].id < rows[b].id);
        }
    }
    let expected = rows_map(rows).insert(row.id as int, row@);
    assert forall|id: int| rows_map(changed).contains_key(id) <==> expected.contains_key(id) by {
        if has_id(changed, id) {
            let k = index_of(changed, id);
            assert(rows[k].id == id);
        }
        if has_id(rows, id) {
            let k = index_of(rows, id);
            assert(changed[k].id == id);
        }
        if id == row.id {
            assert(changed[i].id == id);
        }
    }
    assert forall|id: int| rows_map(changed).contains_key(id) implies rows_map(changed)[id]
        == expected[id] by {
        if id == row.id {
            lemma_row_in_map(changed, last_id, i);
        } else {
            let k = index_of(rows, id);
            assert(changed[k] == rows[k]);
            lemma_row_in_map(changed, last_id, k);
        }
    }
    assert(rows_map(changed) =~= expected);
}

/// Taking a row out of the vector takes it out of the map.
proof fn lemma_remove_row(rows: Seq<TaskRegisterd>, last_id: int, i: int)
    requires
        rows_ordered(rows, last_id),
        0 <= i < rows.len(),
    ensures
        rows_ordered(rows.remove(i), last_id),
        rows_map(rows.remove(i)) == rows_map(rows).remove(rows[i].id as int),
{
    let rest = rows.remove(i);
    assert forall|k: int| 0 <= k < rest.len() implies #[trigger] rest[k] == rows[if k < i {
        k
    } else {
        k + 1
    }] by {}
    assert(rows_ordered(rest, last_id)) by {
        assert forall|a: int, b: int| 0 <= a < b < rest.len() implies rest[a].id < rest[b].id by {
            let a0 = if a < i {
                a
            } else {
                a + 1
            };
            let b0 = if b < i {
                b
            } else {
                b + 1
            };
            assert(rows[a0].id < rows[b0].id);
        }
    }
    let gone = rows[i].id as int;
    let expected = rows_map(rows).remove(gone);
    assert forall|id: int| rows_map(rest).contains_key(id) <==> expected.contains_key(id) by {
        if has_id(rest, id) {
            let k = index_of(rest, id);
            let k0 = if k < i {
                k
            } else {
                k + 1
            };
            assert(rows[k0].id == id);
            if id == gone {
                if k0 < i {
                    assert(rows[k0].id < rows[i].id);
                } else {
                    assert(rows[i].id < rows[k0].id);
                }
            }
        }
        if has_id(rows, id) && id != gone {
            let k = index_of(rows, id);
            let k1 = if k < i {
                k
            } else {
                k - 1
            };
            assert(rest[k1].id == id);
        }
    }
    assert forall|id: int| rows_map(rest).contains_key(id) implies rows_map(rest)[id]
        == expected[id] by {
        let k = index_of(rows, id);
        let k1 = if k < i {
            k
        } else {
            k - 1
        };
        assert(rest[k1] == rows[k]);
        lemma_row_in_map(rest, last_id, k1);
    }
    assert(rows_map(rest) =~= expected);
}

/// Inserts a task: not started, created at `now`, due at `due_at_value`. The
/// new row gets the id after the last one given out, which is returned. A
/// table that has given out every id refuses the insertion and is left as it
/// was.
pub fn add_task(table: &mut TaskTable, task_value: String, due_at_value: String, now: &str) -> (added:
    Result<i64, StoreError>)
    ensures
        final(table)@.wf(),
        match added {
            Ok(id) => {
                &&& !old(table)@.full()
                &&& id == old(table)@.next_id()
                &&& final(table)@ == old(table)@.inserted(task_value@, due_at_value@, now@)
            },
            Err(e) => {
                &&& old(table)@.full()
                &&& e == StoreError::Query
                &&& final(table)@ == old(table)@
            },
        },
{
    proof {
        use_type_invariant(&*table);
        lemma_map_wf(table.rows@, table.last_id as int);
    }
    if table.last_id == i64::MAX {
        return Err(StoreError::Query);
    }
    let id = table.last_id + 1;
    let row = TaskRegisterd {
        id,
        task: task_value,
        status: TaskStatus::NotStarted.code(),
        created_at: Some(now.to_owned()),
        due_at: Some(due_at_value),
        started_at: None,
        done_at: None,
    };
    proof {
        lemma_push_row(table.rows@, table.last_id as int, row);
        lemma_map_wf(table.rows@.push(row), id as int);
    }
    let mut rows = Vec::new();
    std::mem::swap(&mut rows, &mut table.rows);
    rows.push(row);
    table.last_id = id;
    table.rows = rows;
    Ok(id)
}

/// Fetches the row with the given id.
pub fn get_task(table: &TaskTable, id: i64) -> (fetched: Result<TaskRegisterd, StoreError>)
    ensures
        table@.wf(),
        match fetched {
            Ok(row) => table@.fetch(id as int) == Some(row@),
            Err(e) => e == StoreError::NotFound && table@.fetch(id as int) is None,
        },
{
    proof {
        use_type_invariant(table);
        lemma_map_wf(table.rows@, table.last_id as int);
    }
    match position(&table.rows, id) {
        Some(i) => {
            proof {
                lemma_row_in_map(table.rows@, table.last_id as int, i as int);
            }
            Ok(table.rows[i].clone())
        },
        None => Err(StoreError::NotFound),
    }
}

/// Writes `update` into the row with the given id, and says how many rows
/// that touched: one, or none where no row has the id, which is no failure.
pub fn update_status(table: &mut TaskTable, id: i64, update: StatusUpdate) -> (affected: u64)
    ensures
        final(table)@.wf(),
        final(table)@ == old(table)@.updated(id as int, update@),
        affected == old(table)@.rows_affected(id as int),
{
    proof {
        use_type_invariant(&*table);
        lemma_map_wf(table.rows@, table.last_id as int);
    }
    match position(&table.rows, id) {
        Some(i) => {
            let mut rows = Vec::new();
            std::mem::swap(&mut rows, &mut table.rows);
            let ghost before = rows@;
            rows[i].apply(update);
            proof {
                lemma_row_in_map(before, table.last_id as int, i as int);
                lemma_replace_row(before, table.last_id as int, i as int, rows@[i as int]);
                assert(rows@ =~= before.update(i as int, rows@[i as int]));
                lemma_map_wf(rows@, table.last_id as int);
            }
            table.rows = rows;
            1
        },
        None => 0,
    }
}

/// Takes the task with the given id into work at the time `now`.
pub fn start_task(table: &mut TaskTable, id: i64, now: &str) -> (affected: u64)
    ensures
        final(table)@.wf(),
        final(table)@ == old(table)@.updated(id as int, StatusUpdateView::start(now@)),
        affected == old(table)@.rows_affected(id as int),
{
    update_status(table, id, StatusUpdate::start(now))
}

/// Marks the task with the given id as finished at the time `now`.
pub fn done_task(table: &mut TaskTable, id: i64, now: &str) -> (affected: u64)
    ensures
        final(table)@.wf(),
        final(table)@ == old(table)@.updated(id as int, StatusUpdateView::done(now@)),
        affected == old(table)@.rows_affected(id as int),
{
    update_status(table, id, StatusUpdate::done(now))
}

/// Takes the task with the given id back to not started.
pub fn undo_task(table: &mut TaskTable, id: i64) -> (affected: u64)
    ensures
        final(table)@.wf(),
        final(table)@ == old(table)@.updated(id as int, StatusUpdateView::undo()),
        affected == old(table)@.rows_affected(id as int),
{
    update_status(table, id, StatusUpdate::undo())
}

/// Takes the finished task with the given id back into work.
pub fn doing_task(table: &mut TaskTable, id: i64) -> (affected: u64)
    ensures
        final(table)@.wf(),
        final(table)@ == old(table)@.updated(id as int, StatusUpdateView::doing()),
        affected == old(table)@.rows_affected(id as int),
{
    update_status(table, id, StatusUpdate::doing())
}

/// Removes the row with the given id, and says how many rows that touched:
/// one, or none where no row has the id, which is no failure.
pub fn remove_task(table: &mut TaskTable, id: i64) -> (affected: u64)
    ensures
        final(table)@.wf(),
        final(table)@ == old(table)@.removed(id as int),
        affected == old(table)@.rows_affected(id as int),
{
    proof {
        use_type_invariant(&*table);
        lemma_map_wf(table.rows@, table.last_id as int);
    }
    match position(&table.rows, id) {
        Some(i) => {
            proof {
                lemma_row_in_map(table.rows@, table.last_id as int, i as int);
                lemma_remove_row(table.rows@, table.last_id as int, i as int);
                lemma_map_wf(table.rows@.remove(i as int), table.last_id as int);
            }
            let mut rows = Vec::new();
            std::mem::swap(&mut rows, &mut table.rows);
            rows.remove(i);
            table.rows = rows;
            1
        },
        None => {
            proof {
                assert(table@.rows.remove(id as int) =~= table@.rows);
            }
            0
        },
    }
}

/// Lists the rows whose status code is `status`, in ascending order of their
/// ids; the empty list where there is none.
pub fn get_task_list(table: &TaskTable, status: i32) -> (list: Vec<TaskRegisterd>)
    ensures
        table@.wf(),
        table@.lists(status as int, views(list@)),
{
    proof {
        use_type_invariant(table);
        lemma_map_wf(table.rows@, table.last_id as int);
    }
    let mut list: Vec<TaskRegisterd> = Vec::new();
    let ghost mut from: Seq<int> = Seq::empty();
    let mut i: usize = 0;
    while i < table.rows.len()
        invariant
            i <= table.rows.len(),
            rows_ordered(table.rows@, table.last_id as int),
            from.len() == list.len(),
            forall|k: int|
                0 <= k < from.len() ==> {
                    &&& 0 <= #[trigger] from[k] < i
                    &&& list[k]@ == table.rows[from[k]]@
                    &&& table.rows[from[k]].status == status
                },
            forall|k: int, l: int| 0 <= k < l < from.len() ==> from[k] < from[l],
            forall|j: int|
                0 <= j < i && (#[trigger] table.rows[j]).status == status ==> exists|k: int|
                    0 <= k < from.len() && #[trigger] from[k] == j,
        decreases table.rows.len() - i,
    {
        if table.rows[i].status == status {
            list.push(table.rows[i].clone());
            proof {
                let ghost grown = from.push(i as int);
                assert forall|j: int|
                    0 <= j < i + 1 && (#[trigger] table.rows[j]).status == status implies exists|
                    k: int,
                |
                    0 <= k < grown.len() && #[trigger] grown[k] == j by {
                    if j < i {
                        let k = choose|k: int| 0 <= k < from.len() && #[trigger] from[k] == j;
                        assert(grown[k] == j);
                    } else {
                        assert(grown[from.len() as int] == j);
                    }
                }
                from = grown;
            }
        }
        i += 1;
    }
    proof {
        let rows = table.rows@;
        let found = views(list@);
        assert forall|a: int, b: int| 0 <= a < b < found.len() implies found[a].id
            < found[b].id by {
            assert(rows[from[a]].id < rows[from[b]].id);
        }
        assert forall|a: int| 0 <= a < found.len() implies {
            &&& table@.rows.contains_key(#[trigger] found[a].id)
            &&& table@.rows[found[a].id] == found[a]
            &&& found[a].status == status
        } by {
            lemma_row_in_map(rows, table.last_id as int, from[a]);
        }
        assert forall|id: int| #[trigger]
            table@.rows.contains_key(id) && table@.rows[id].status == status implies exists|
            a: int,
        |
            0 <= a < found.len() && found[a].id == id by {
            let j = index_of(rows, id);
            assert(rows[j].status == status);
            let k = choose|k: int| 0 <= k < from.len() && #[trigger] from[k] == j;
            assert(found[k].id == id);
        }
    }
    list
}

/// One statement against the task table.
#[derive(Debug)]
pub enum Statement {
    /// Insert a task with this text and this due date.
    Insert { task: String, due_at: String },
    /// Apply a transition to the task with this id.
    Update { id: i64, transition: Transition },
    /// Remove the task with this id.
    Delete { id: i64 },
}

impl View for Statement {
    type V = StatementView;

    open spec fn view(&self) -> StatementView {
        match self {
            Statement::Insert { task, due_at } => StatementView::Insert {
                task: task@,
                due_at: due_at@,
            },
            Statement::Update { id, transition } => StatementView::Update {
                id: *id as int,
                transition: *transition,
            },
            Statement::Delete { id } => StatementView::Delete { id: *id as int },
        }
    }
}

/// Runs `statement` against the table at the time `now`, and says how many
/// rows it touched. A statement that the table refuses fails and leaves the
/// table as it was.
pub fn execute(table: &mut TaskTable, statement: Statement, now: &str) -> (affected: Result<
    u64,
    StoreError,
>)
    ensures
        final(table)@.wf(),
        match affected {
            Ok(rows) => {
                &&& !old(table)@.refuses(statement@)
                &&& final(table)@ == old(table)@.executed(statement@, now@)
                &&& rows == old(table)@.touched(statement@)
            },
            Err(e) => {
                &&& old(table)@.refuses(statement@)
                &&& e == StoreError::Query
                &&& final(table)@ == old(table)@
            },
        },
{
    match statement {
        Statement::Insert { task, due_at } => match add_task(table, task, due_at, now) {
            Ok(_) => Ok(1),
            Err(e) => Err(e),
        },
        Statement::Update { id, transition } => Ok(
            update_status(table, id, transition.update(now)),
        ),
        Statement::Delete { id } => Ok(remove_task(table, id)),
    }
}

} // verus!
