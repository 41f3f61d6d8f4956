//! What holds of the task table and of the requests against it, whatever
//! the table holds.

use vstd::prelude::*;
use vstd::set_lib::{lemma_int_range, lemma_len_subset, set_int_range};
use crate::db::{StoreError, TaskView};
use crate::model::{fresh_row, StatementView, TableView};
use crate::handlers::{
    spec_create_statement, spec_delete_statement, spec_transition_statement, RequestError,
    TaskFormView,
};
use crate::lifecycle::{StatusUpdateView, Transition};
use crate::status::TaskStatus;

verus! {

/// Every statement that the table does not refuse leaves a well-formed
/// table well formed: ids stay unique and within what was given out, and each
/// status code stands for a status.
pub proof fn lemma_executed_keeps_wf(table: TableView, statement: StatementView, now: Seq<char>)
    requires
        table.wf(),
        !table.refuses(statement),
    ensures
        table.executed(statement, now).wf(),
        table.executed(statement, now).last_id >= table.last_id,
{
}

/// A table holds finitely many rows: no more than it has given out ids.
pub proof fn lemma_table_is_finite(table: TableView)
    requires
        table.wf(),
    ensures
        table.rows.dom().finite(),
        table.rows.dom().len() <= table.last_id,
{
    let given_out = set_int_range(1, table.last_id + 1);
    lemma_int_range(1, table.last_id + 1);
    assert(table.rows.dom().subset_of(given_out)) by {
        assert forall|id: int| table.rows.dom().contains(id) implies given_out.contains(id) by {
            assert(table.rows.contains_key(id));
        }
    }
    lemma_len_subset(table.rows.dom(), given_out);
}

/// No statement changes the id of a row, and an update changes neither the
/// text, nor the creation time, nor the due date of any row.
pub proof fn lemma_updates_keep_identity(
    table: TableView,
    id: int,
    update: StatusUpdateView,
    other: int,
)
    requires
        table.wf(),
        table.rows.contains_key(other),
    ensures
        table.updated(id, update).rows.contains_key(other),
        table.updated(id, update).rows[other].id == other,
        table.updated(id, update).rows[other].task == table.rows[other].task,
        table.updated(id, update).rows[other].created_at == table.rows[other].created_at,
        table.updated(id, update).rows[other].due_at == table.rows[other].due_at,
        other != id ==> table.updated(id, update).rows[other] == table.rows[other],
{
}

/// A creation request with a task text that is not empty adds one row: it
/// stands under the next id, is not started, carries neither a start time nor
/// an end time, was created at `now`, and is due at the date of the form, or
/// at the default date where the form names none. No other row changes.
///
/// This is stated of a table that has an id left to give out, and of a
/// request whose due date is named or can be made up.
pub proof fn lemma_create_adds_unstarted_row(
    table: TableView,
    form: TaskFormView,
    default_due: Option<Seq<char>>,
    now: Seq<char>,
    other: int,
)
    requires
        table.wf(),
        !table.full(),
        form.task is Some,
        form.task->0.len() > 0,
        form.due_at is Some || default_due is Some,
    ensures
        table.created(form, default_due, now) is Ok,
        ({
            let after = table.created(form, default_due, now)->Ok_0;
            let id = table.next_id();
            let due_at = if form.due_at is Some {
                form.due_at->0
            } else {
                default_due->0
            };
            &&& !table.rows.contains_key(id)
            &&& after.fetch(id) == Some(fresh_row(id, form.task->0, due_at, now))
            &&& after.rows[id].status == TaskStatus::NotStarted.spec_code()
            &&& after.rows[id].started_at is None
            &&& after.rows[id].done_at is None
            &&& after.rows[id].created_at == Some(now)
            &&& after.rows[id].due_at == Some(due_at)
            &&& after.rows[id].consistent()
            &&& other != id ==> after.fetch(other) == table.fetch(other)
        }),
{
}

/// A creation request without a task text, or with an empty one, inserts
/// nothing: it plans no statement and leaves the table as it was.
pub proof fn lemma_create_without_text_inserts_nothing(
    table: TableView,
    form: TaskFormView,
    default_due: Option<Seq<char>>,
    now: Seq<char>,
)
    requires
        form.task is None || form.task->0.len() == 0,
    ensures
        spec_create_statement(form, default_due) is Ok,
        spec_create_statement(form, default_due)->Ok_0 is None,
        table.created(form, default_due, now) == Ok::<TableView, RequestError>(table),
{
}

/// A creation request whose insertion the table refuses fails with the
/// failure of the store: it is not answered like one that was served.
pub proof fn lemma_refused_insertion_fails(
    table: TableView,
    form: TaskFormView,
    default_due: Option<Seq<char>>,
    now: Seq<char>,
)
    requires
        table.full(),
        form.task is Some,
        form.task->0.len() > 0,
        form.due_at is Some || default_due is Some,
    ensures
        table.created(form, default_due, now) == Err::<TableView, RequestError>(
            RequestError::Store(StoreError::Query),
        ),
{
}

/// A creation request fails in two cases and no other: the table refuses the
/// insertion, or the due date has to be made up and cannot be written.
pub proof fn lemma_create_fails_only_so(
    table: TableView,
    form: TaskFormView,
    default_due: Option<Seq<char>>,
    now: Seq<char>,
)
    ensures
        table.created(form, default_due, now) is Err <==> form.task is Some && form.task->0.len()
            > 0 && (table.full() || (form.due_at is None && default_due is None)),
{
}

/// No request for a transition and no request for a deletion fails.
pub proof fn lemma_only_insertions_fail(
    table: TableView,
    form: TaskFormView,
    transition: Transition,
    now: Seq<char>,
)
    ensures
        table.performed(spec_transition_statement(form, transition), now) is Ok,
        table.performed(spec_delete_statement(form), now) is Ok,
{
}

/// A request for a transition, or for a deletion, that names no task plans
/// no statement and leaves the table as it was.
pub proof fn lemma_request_without_id_changes_nothing(
    table: TableView,
    form: TaskFormView,
    transition: Transition,
    now: Seq<char>,
)
    requires
        form.id is None,
    ensures
        table.performed(spec_transition_statement(form, transition), now) == Ok::<
            TableView,
            RequestError,
        >(table),
        table.performed(spec_delete_statement(form), now) == Ok::<TableView, RequestError>(table),
{
}

/// A request for a transition that names a task does to the table what the
/// update of that transition does to it.
pub proof fn lemma_request_with_id(
    table: TableView,
    form: TaskFormView,
    transition: Transition,
    now: Seq<char>,
)
    requires
        form.id is Some,
    ensures
        table.performed(spec_transition_statement(form, transition), now) == Ok::<
            TableView,
            RequestError,
        >(table.updated(form.id->0 as int, transition.spec_update(now))),
        table.performed(spec_delete_statement(form), now) == Ok::<TableView, RequestError>(
            table.removed(form.id->0 as int),
        ),
{
}

/// Starting an existing task sets its status to in progress and its start
/// time to `now`, and leaves its end time as it was.
pub proof fn lemma_start_on_existing(table: TableView, id: int, now: Seq<char>)
    requires
        table.wf(),
        table.rows.contains_key(id),
    ensures
        ({
            let after = table.updated(id, StatusUpdateView::start(now));
            &&& after.fetch(id) is Some
            &&& after.rows[id].status == TaskStatus::InProgress.spec_code()
            &&& after.rows[id].started_at == Some(now)
            &&& after.rows[id].done_at == table.rows[id].done_at
        }),
{
}

/// Finishing an existing task sets its status to completed and its end time
/// to `now`, and leaves its start time as it was.
pub proof fn lemma_done_on_existing(table: TableView, id: int, now: Seq<char>)
    requires
        table.wf(),
        table.rows.contains_key(id),
    ensures
        ({
            let after = table.updated(id, StatusUpdateView::done(now));
            &&& after.fetch(id) is Some
            &&& after.rows[id].status == TaskStatus::Completed.spec_code()
            &&& after.rows[id].done_at == Some(now)
            &&& after.rows[id].started_at == table.rows[id].started_at
        }),
{
}

/// Undoing an existing task clears its start time and sets its status to not
/// started, whatever its status was, and leaves its end time as it was.
pub proof fn lemma_undo_on_existing(table: TableView, id: int)
    requires
        table.wf(),
        table.rows.contains_key(id),
    ensures
        ({
            let after = table.updated(id, StatusUpdateView::undo());
            &&& after.fetch(id) is Some
            &&& after.rows[id].status == TaskStatus::NotStarted.spec_code()
            &&& after.rows[id].started_at is None
            &&& after.rows[id].done_at == table.rows[id].done_at
        }),
{
}

/// Taking an existing task back into work clears its end time and sets its
/// status to in progress, whatever its status was, and leaves its start time
/// as it was.
pub proof fn lemma_doing_on_existing(table: TableView, id: int)
    requires
        table.wf(),
        table.rows.contains_key(id),
    ensures
        ({
            let after = table.updated(id, StatusUpdateView::doing());
            &&& after.fetch(id) is Some
            &&& after.rows[id].status == TaskStatus::InProgress.spec_code()
            &&& after.rows[id].done_at is None
            &&& after.rows[id].started_at == table.rows[id].started_at
        }),
{
}

/// An update that addresses no row changes nothing and touches no row.
pub proof fn lemma_update_on_missing(table: TableView, id: int, update: StatusUpdateView)
    requires
        !table.rows.contains_key(id),
    ensures
        table.updated(id, update) == table,
        table.rows_affected(id) == 0,
{
}

/// After a row has been removed, fetching it finds nothing, whether or not
/// it was there; every other row is fetched as before. No later insertion
/// brings the id back.
pub proof fn lemma_removed_is_gone(
    table: TableView,
    id: int,
    other: int,
    task: Seq<char>,
    due_at: Seq<char>,
    now: Seq<char>,
)
    requires
        table.wf(),
    ensures
        table.removed(id).fetch(id) is None,
        other != id ==> table.removed(id).fetch(other) == table.fetch(other),
        1 <= id <= table.last_id ==> table.removed(id).inserted(task, due_at, now).fetch(id)
            is None,
{
}

/// What a listing holds: a row is in the list of a status exactly if the
/// table holds it and its status is that one.
pub proof fn lemma_listing_holds_exactly(
    table: TableView,
    status: int,
    list: Seq<TaskView>,
    row: TaskView,
)
    requires
        table.lists(status, list),
    ensures
        list.contains(row) <==> table.fetch(row.id) == Some(row) && row.status == status,
{
    if list.contains(row) {
        let i = choose|i: int| 0 <= i < list.len() && list[i] == row;
        assert(table.rows.contains_key(list[i].id));
    }
    if table.fetch(row.id) == Some(row) && row.status == status {
        assert(table.rows.contains_key(row.id));
        let i = choose|i: int| 0 <= i < list.len() && list[i].id == row.id;
        assert(table.rows.contains_key(list[i].id));
        assert(list[i] == row);
    }
}

/// Whether one of `rows` has the given id.
spec fn holds_id(rows: Seq<TaskView>, id: int) -> bool {
    exists|i: int| 0 <= i < rows.len() && (#[trigger] rows[i]).id == id
}

/// Whether `rows` stand in strictly ascending order of their ids.
spec fn ascending(rows: Seq<TaskView>) -> bool {
    forall|i: int, j: int| 0 <= i < j < rows.len() ==> rows[i].id < rows[j].id
}

/// The place of a row with the given id among `rows`.
spec fn place_of(rows: Seq<TaskView>, id: int) -> int {
    choose|i: int| 0 <= i < rows.len() && (#[trigger] rows[i]).id == id
}

/// Two sequences of rows in strictly ascending order of the ids, over the
/// same ids, have the same ids at the same places.
proof fn lemma_same_ids(a: Seq<TaskView>, b: Seq<TaskView>)
    requires
        ascending(a),
        ascending(b),
        forall|i: int| 0 <= i < a.len() ==> holds_id(b, (#[trigger] a[i]).id),
        forall|j: int| 0 <= j < b.len() ==> holds_id(a, (#[trigger] b[j]).id),
    ensures
        a.len() == b.len(),
        forall|i: int| 0 <= i < a.len() ==> (#[trigger] a[i]).id == b[i].id,
    decreases a.len(),
{
    if a.len() == 0 {
        if b.len() > 0 {
            assert(holds_id(a, b[0].id));
        }
    } else {
        let top = a.len() - 1;
        assert(holds_id(b, a[top].id));
        let j = place_of(b, a[top].id);
        let last = b.len() - 1;
        assert(j == last) by {
            if j < last {
                assert(holds_id(a, b[last].id));
                let i = place_of(a, b[last].id);
                assert(b[j].id < b[last].id);
                if i < top {
                    assert(a[i].id < a[top].id);
                }
            }
        }
        let a0 = a.drop_last();
        let b0 = b.drop_last();
        assert forall|i: int| 0 <= i < a0.len() implies holds_id(b0, (#[trigger] a0[i]).id) by {
            assert(holds_id(b, a[i].id));
            let k = place_of(b, a[i].id);
            assert(a[i].id < a[top].id);
            assert(b0[k].id == a0[i].id);
        }
        assert forall|k: int| 0 <= k < b0.len() implies holds_id(a0, (#[trigger] b0[k]).id) by {
            assert(holds_id(a, b[k].id));
            let i = place_of(a, b[k].id);
            assert(b[k].id < b[last].id);
            assert(a0[i].id == b0[k].id);
        }
        assert(ascending(a0)) by {
            assert forall|i: int, k: int| 0 <= i < k < a0.len() implies a0[i].id < a0[k].id by {
                assert(a[i].id < a[k].id);
            }
        }
        assert(ascending(b0)) by {
            assert forall|i: int, k: int| 0 <= i < k < b0.len() implies b0[i].id < b0[k].id by {
                assert(b[i].id < b[k].id);
            }
        }
        lemma_same_ids(a0, b0);
        assert forall|i: int| 0 <= i < a.len() implies (#[trigger] a[i]).id == b[i].id by {
            if i < top {
                assert(a0[i].id == b0[i].id);
            }
        }
    }
}

/// The listing of a status is determined by the table: the rows of that
/// status, each once, in ascending order of their ids, are one sequence and no
/// other.
pub proof fn lemma_listing_unique(
    table: TableView,
    status: int,
    first: Seq<TaskView>,
    second: Seq<TaskView>,
)
    requires
        table.lists(status, first),
        table.lists(status, second),
    ensures
        first == second,
{
    assert forall|i: int| 0 <= i < first.len() implies holds_id(
        second,
        (#[trigger] first[i]).id,
    ) by {
        assert(table.rows.contains_key(first[i].id));
        let j = choose|j: int| 0 <= j < second.len() && second[j].id == first[i].id;
        assert(second[j].id == first[i].id);
    }
    assert forall|j: int| 0 <= j < second.len() implies holds_id(
        first,
        (#[trigger] second[j]).id,
    ) by {
        assert(table.rows.contains_key(second[j].id));
        let i = choose|i: int| 0 <= i < first.len() && first[i].id == second[j].id;
        assert(first[i].id == second[j].id);
    }
    lemma_same_ids(first, second);
    assert forall|i: int| 0 <= i < first.len() implies first[i] == second[i] by {
        assert(table.rows.contains_key(first[i].id));
        assert(table.rows.contains_key(second[i].id));
    }
    assert(first =~= second);
}

/// Every row of a well-formed table stands in the listing of exactly one of
/// the three statuses.
pub proof fn lemma_listings_partition(
    table: TableView,
    unstarted: Seq<TaskView>,
    in_progress: Seq<TaskView>,
    completed: Seq<TaskView>,
    id: int,
)
    requires
        table.wf(),
        table.lists(TaskStatus::NotStarted.spec_code(), unstarted),
        table.lists(TaskStatus::InProgress.spec_code(), in_progress),
        table.lists(TaskStatus::Completed.spec_code(), completed),
        table.rows.contains_key(id),
    ensures
        unstarted.contains(table.rows[id]) || in_progress.contains(table.rows[id])
            || completed.contains(table.rows[id]),
        !(unstarted.contains(table.rows[id]) && in_progress.contains(table.rows[id])),
        !(unstarted.contains(table.rows[id]) && completed.contains(table.rows[id])),
        !(in_progress.contains(table.rows[id]) && completed.contains(table.rows[id])),
{
    let row = table.rows[id];
    lemma_listing_holds_exactly(table, TaskStatus::NotStarted.spec_code(), unstarted, row);
    lemma_listing_holds_exactly(table, TaskStatus::InProgress.spec_code(), in_progress, row);
    lemma_listing_holds_exactly(table, TaskStatus::Completed.spec_code(), completed, row);
}

} // verus!
