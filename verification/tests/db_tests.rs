use task_tracker::db::{
    add_task, classify, doing_task, done_task, execute, get_task, get_task_list, remove_task,
    start_task, store_error, undo_task, update_status, Statement, StoreError, TaskRegisterd,
    TaskTable, TextColumn,
};
use task_tracker::lifecycle::{StatusUpdate, Transition};

const NOW: &str = "2025-01-24 09:30:00";
const LATER: &str = "2025-01-25 18:00:00";

fn setup_test_db() -> TaskTable {
    TaskTable::new()
}

fn row(id: i64, status: i32) -> TaskRegisterd {
    TaskRegisterd {
        id,
        task: format!("task {}", id),
        status,
        created_at: Some(NOW.to_string()),
        due_at: Some(LATER.to_string()),
        started_at: None,
        done_at: None,
    }
}

#[test]
fn test_add_task() {
    let mut pool = setup_test_db();

    let _id = add_task(
        &mut pool,
        "test_task001".to_string(),
        "2025-02-23T00:00:00Z".to_string(),
        NOW,
    )
    .unwrap();

    let result = get_task(&pool, 1).unwrap();

    assert_eq!(result.task, "test_task001".to_string());
    assert_eq!(result.status, 0);
    assert!(result.created_at.is_some());
    assert!(result.due_at.is_some());
    assert!(result.started_at.is_none());
    assert!(result.done_at.is_none());
}

#[test]
fn test_start_task() {
    let mut pool = setup_test_db();

    let _id = add_task(
        &mut pool,
        "test_task001".to_string(),
        "2025-02-23T00:00:00Z".to_string(),
        NOW,
    )
    .unwrap();

    start_task(&mut pool, 1, NOW);

    let result = get_task(&pool, 1).unwrap();

    assert_eq!(result.task, "test_task001".to_string());
    assert_eq!(result.status, 1);
    assert!(result.created_at.is_some());
    assert!(result.due_at.is_some());
    assert!(result.started_at.is_some());
    assert!(result.done_at.is_none());
}

#[test]
fn test_done_task() {
    let mut pool = setup_test_db();

    let _id = add_task(
        &mut pool,
        "test_task001".to_string(),
        "2025-02-23T00:00:00Z".to_string(),
        NOW,
    )
    .unwrap();

    start_task(&mut pool, 1, NOW);
    done_task(&mut pool, 1, LATER);

    let result = get_task(&pool, 1).unwrap();

    assert_eq!(result.task, "test_task001".to_string());
    assert_eq!(result.status, 9);
    assert!(result.created_at.is_some());
    assert!(result.due_at.is_some());
    assert!(result.started_at.is_some());
    assert!(result.done_at.is_some());
}

#[test]
fn test_undo_task() {
    let mut pool = setup_test_db();

    let _id = add_task(
        &mut pool,
        "test_task001".to_string(),
        "2025-02-23T00:00:00Z".to_string(),
        NOW,
    )
    .unwrap();

    start_task(&mut pool, 1, NOW);
    undo_task(&mut pool, 1);

    let result = get_task(&pool, 1).unwrap();

    assert_eq!(result.task, "test_task001".to_string());
    assert_eq!(result.status, 0);
    assert!(result.created_at.is_some());
    assert!(result.due_at.is_some());
    assert!(result.started_at.is_none());
    assert!(result.done_at.is_none());
}

#[test]
fn test_doing_task() {
    let mut pool = setup_test_db();

    let _id = add_task(
        &mut pool,
        "test_task001".to_string(),
        "2025-02-23T00:00:00Z".to_string(),
        NOW,
    )
    .unwrap();

    start_task(&mut pool, 1, NOW);
    done_task(&mut pool, 1, LATER);
    doing_task(&mut pool, 1);

    let result = get_task(&pool, 1).unwrap();

    assert_eq!(result.task, "test_task001".to_string());
    assert_eq!(result.status, 1);
    assert!(result.created_at.is_some());
    assert!(result.due_at.is_some());
    assert!(result.started_at.is_some());
    assert!(result.done_at.is_none());
}

#[test]
fn test_remove_task() {
    let mut pool = setup_test_db();

    let _id = add_task(
        &mut pool,
        "test_task001".to_string(),
        "2025-02-23T00:00:00Z".to_string(),
        NOW,
    )
    .unwrap();

    remove_task(&mut pool, 1);

    let result = get_task(&pool, 1);

    assert!(result.is_err());
}

#[test]
fn test_get_task_list_unstarted() {
    let mut pool = setup_test_db();

    add_task(
        &mut pool,
        "test_task001".to_string(),
        "2025-02-23T00:00:00Z".to_string(),
        NOW,
    )
    .unwrap();

    let unstarted_tasks = get_task_list(&pool, 0);
    let unstarted_task = unstarted_tasks.first().unwrap();

    assert_eq!(unstarted_task.task, "test_task001".to_string());
    assert_eq!(unstarted_task.status, 0);
    assert!(unstarted_task.created_at.is_some());
    assert!(unstarted_task.due_at.is_some());
    assert!(unstarted_task.started_at.is_none());
    assert!(unstarted_task.done_at.is_none());
}

#[test]
fn test_get_task_list_in_progress() {
    let mut pool = setup_test_db();

    add_task(
        &mut pool,
        "test_task001".to_string(),
        "2025-02-23T00:00:00Z".to_string(),
        NOW,
    )
    .unwrap();

    add_task(
        &mut pool,
        "test_task002".to_string(),
        "2025-02-23T00:00:00Z".to_string(),
        NOW,
    )
    .unwrap();

    add_task(
        &mut pool,
        "test_task003".to_string(),
        "2025-02-23T00:00:00Z".to_string(),
        NOW,
    )
    .unwrap();

    start_task(&mut pool, 1, NOW);

    let in_progress_tasks = get_task_list(&pool, 1);
    let in_progress_task = in_progress_tasks.first().unwrap();

    assert_eq!(in_progress_task.task, "test_task001".to_string());
    assert_eq!(in_progress_task.status, 1);
    assert!(in_progress_task.created_at.is_some());
    assert!(in_progress_task.due_at.is_some());
    assert!(in_progress_task.started_at.is_some());
    assert!(in_progress_task.done_at.is_none());
}

#[test]
fn test_get_task_list_in_completed() {
    let mut pool = setup_test_db();

    add_task(
        &mut pool,
        "test_task001".to_string(),
        "2025-02-23T00:00:00Z".to_string(),
        NOW,
    )
    .unwrap();

    start_task(&mut pool, 1, NOW);
    done_task(&mut pool, 1, LATER);

    let completed_tasks = get_task_list(&pool, 9);
    let completed_task = completed_tasks.first().unwrap();

    assert_eq!(completed_task.task, "test_task001".to_string());
    assert_eq!(completed_task.status, 9);
    assert!(completed_task.created_at.is_some());
    assert!(completed_task.due_at.is_some());
    assert!(completed_task.started_at.is_some());
    assert!(completed_task.done_at.is_some());
}

#[test]
fn new_table_is_empty() {
    let table = TaskTable::new();
    assert_eq!(table.last_id(), 0);
    assert!(get_task_list(&table, 0).is_empty());
    assert!(get_task_list(&table, 1).is_empty());
    assert!(get_task_list(&table, 9).is_empty());
    assert_eq!(get_task(&table, 1).unwrap_err(), StoreError::NotFound);
}

#[test]
fn add_task_gives_out_ascending_ids_and_stores_every_column() {
    let mut table = TaskTable::new();
    assert_eq!(add_task(&mut table, "a".to_string(), "d1".to_string(), NOW), Ok(1));
    assert_eq!(add_task(&mut table, "b".to_string(), "d2".to_string(), LATER), Ok(2));
    assert_eq!(table.last_id(), 2);
    let second = get_task(&table, 2).unwrap();
    assert_eq!(second.id, 2);
    assert_eq!(second.task, "b");
    assert_eq!(second.status, 0);
    assert_eq!(second.created_at.as_deref(), Some(LATER));
    assert_eq!(second.due_at.as_deref(), Some("d2"));
    assert_eq!(second.started_at, None);
    assert_eq!(second.done_at, None);
    let first = get_task(&table, 1).unwrap();
    assert_eq!(first.created_at.as_deref(), Some(NOW));
    assert_eq!(first.due_at.as_deref(), Some("d1"));
}

#[test]
fn add_task_accepts_an_empty_text() {
    let mut table = TaskTable::new();
    assert_eq!(add_task(&mut table, String::new(), String::new(), NOW), Ok(1));
    let got = get_task(&table, 1).unwrap();
    assert_eq!(got.task, "");
    assert_eq!(got.due_at.as_deref(), Some(""));
}

#[test]
fn ids_are_not_given_out_twice() {
    let mut table = TaskTable::new();
    add_task(&mut table, "a".to_string(), "d".to_string(), NOW).unwrap();
    add_task(&mut table, "b".to_string(), "d".to_string(), NOW).unwrap();
    assert_eq!(remove_task(&mut table, 2), 1);
    assert_eq!(add_task(&mut table, "c".to_string(), "d".to_string(), NOW), Ok(3));
    assert_eq!(get_task(&table, 2).unwrap_err(), StoreError::NotFound);
    assert_eq!(get_task(&table, 3).unwrap().task, "c");
}

#[test]
fn full_table_refuses_an_insertion() {
    let mut table = TaskTable::from_rows(vec![row(i64::MAX, 0)]).unwrap();
    assert_eq!(table.last_id(), i64::MAX);
    assert_eq!(
        add_task(&mut table, "x".to_string(), "d".to_string(), NOW),
        Err(StoreError::Query)
    );
    assert_eq!(table.last_id(), i64::MAX);
    assert_eq!(get_task_list(&table, 0).len(), 1);
    let insert = Statement::Insert { task: "x".to_string(), due_at: "d".to_string() };
    assert_eq!(execute(&mut table, insert, NOW), Err(StoreError::Query));
    assert_eq!(table.last_id(), i64::MAX);
    assert_eq!(get_task_list(&table, 0).len(), 1);
    let update = Statement::Update { id: i64::MAX, transition: Transition::Start };
    assert_eq!(execute(&mut table, update, NOW), Ok(1));
    assert_eq!(execute(&mut table, Statement::Delete { id: i64::MAX }, NOW), Ok(1));
    let again = Statement::Insert { task: "x".to_string(), due_at: "d".to_string() };
    assert_eq!(execute(&mut table, again, NOW), Err(StoreError::Query));
}

#[test]
fn last_id_before_the_largest_still_inserts() {
    let mut table = TaskTable::from_rows(vec![row(i64::MAX - 1, 0)]).unwrap();
    assert_eq!(add_task(&mut table, "x".to_string(), "d".to_string(), NOW), Ok(i64::MAX));
    assert_eq!(
        add_task(&mut table, "y".to_string(), "d".to_string(), NOW),
        Err(StoreError::Query)
    );
}

#[test]
fn from_rows_keeps_the_rows_and_goes_on_after_the_last_id() {
    let mut table = TaskTable::from_rows(vec![row(2, 1), row(5, 9), row(7, 0)]).unwrap();
    assert_eq!(table.last_id(), 7);
    assert_eq!(get_task(&table, 5).unwrap().status, 9);
    assert_eq!(get_task(&table, 5).unwrap().task, "task 5");
    assert!(get_task(&table, 1).is_err());
    assert!(get_task(&table, 3).is_err());
    assert_eq!(add_task(&mut table, "n".to_string(), "d".to_string(), NOW), Ok(8));
    let empty = TaskTable::from_rows(Vec::new()).unwrap();
    assert_eq!(empty.last_id(), 0);
}

#[test]
fn from_rows_refuses_rows_that_no_table_holds() {
    assert!(TaskTable::from_rows(vec![row(2, 0), row(1, 0)]).is_none());
    assert!(TaskTable::from_rows(vec![row(1, 0), row(1, 0)]).is_none());
    assert!(TaskTable::from_rows(vec![row(0, 0)]).is_none());
    assert!(TaskTable::from_rows(vec![row(-3, 0)]).is_none());
    assert!(TaskTable::from_rows(vec![row(1, 2)]).is_none());
    assert!(TaskTable::from_rows(vec![row(1, 0), row(2, -1)]).is_none());
    assert!(TaskTable::from_rows(vec![row(1, 0), row(2, 1), row(3, 9)]).is_some());
}

#[test]
fn get_task_fails_with_not_found_only() {
    let mut table = TaskTable::new();
    add_task(&mut table, "a".to_string(), "d".to_string(), NOW).unwrap();
    assert!(get_task(&table, 1).is_ok());
    assert_eq!(get_task(&table, 0).unwrap_err(), StoreError::NotFound);
    assert_eq!(get_task(&table, 2).unwrap_err(), StoreError::NotFound);
    assert_eq!(get_task(&table, -1).unwrap_err(), StoreError::NotFound);
    assert_eq!(get_task(&table, i64::MIN).unwrap_err(), StoreError::NotFound);
}

#[test]
fn update_of_a_missing_row_touches_nothing() {
    let mut table = TaskTable::new();
    add_task(&mut table, "a".to_string(), "d".to_string(), NOW).unwrap();
    assert_eq!(start_task(&mut table, 2, NOW), 0);
    assert_eq!(done_task(&mut table, 2, NOW), 0);
    assert_eq!(undo_task(&mut table, 2), 0);
    assert_eq!(doing_task(&mut table, 2), 0);
    assert_eq!(remove_task(&mut table, 2), 0);
    let kept = get_task(&table, 1).unwrap();
    assert_eq!(kept.status, 0);
    assert_eq!(kept.started_at, None);
    assert_eq!(kept.done_at, None);
    assert_eq!(start_task(&mut table, 1, NOW), 1);
    assert_eq!(remove_task(&mut table, 1), 1);
    assert_eq!(remove_task(&mut table, 1), 0);
}

#[test]
fn start_writes_the_start_time_and_keeps_the_end_time() {
    let mut table = TaskTable::new();
    add_task(&mut table, "a".to_string(), "due".to_string(), NOW).unwrap();
    done_task(&mut table, 1, NOW);
    start_task(&mut table, 1, LATER);
    let got = get_task(&table, 1).unwrap();
    assert_eq!(got.status, 1);
    assert_eq!(got.started_at.as_deref(), Some(LATER));
    assert_eq!(got.done_at.as_deref(), Some(NOW));
    assert_eq!(got.created_at.as_deref(), Some(NOW));
    assert_eq!(got.due_at.as_deref(), Some("due"));
    assert_eq!(got.task, "a");
    assert_eq!(got.id, 1);
}

#[test]
fn done_writes_the_end_time_without_a_start() {
    let mut table = TaskTable::new();
    add_task(&mut table, "a".to_string(), "due".to_string(), NOW).unwrap();
    done_task(&mut table, 1, LATER);
    let got = get_task(&table, 1).unwrap();
    assert_eq!(got.status, 9);
    assert_eq!(got.started_at, None);
    assert_eq!(got.done_at.as_deref(), Some(LATER));
}

#[test]
fn undo_and_doing_clear_from_any_status() {
    let mut table = TaskTable::new();
    add_task(&mut table, "a".to_string(), "due".to_string(), NOW).unwrap();
    assert_eq!(undo_task(&mut table, 1), 1);
    assert_eq!(get_task(&table, 1).unwrap().status, 0);
    assert_eq!(doing_task(&mut table, 1), 1);
    let got = get_task(&table, 1).unwrap();
    assert_eq!(got.status, 1);
    assert_eq!(got.started_at, None);
    assert_eq!(got.done_at, None);
    start_task(&mut table, 1, NOW);
    done_task(&mut table, 1, LATER);
    undo_task(&mut table, 1);
    let got = get_task(&table, 1).unwrap();
    assert_eq!(got.status, 0);
    assert_eq!(got.started_at, None);
    assert_eq!(got.done_at.as_deref(), Some(LATER));
}

#[test]
fn transitions_leave_the_other_rows_alone() {
    let mut table = TaskTable::new();
    add_task(&mut table, "a".to_string(), "d".to_string(), NOW).unwrap();
    add_task(&mut table, "b".to_string(), "d".to_string(), NOW).unwrap();
    start_task(&mut table, 2, LATER);
    let first = get_task(&table, 1).unwrap();
    assert_eq!(first.status, 0);
    assert_eq!(first.started_at, None);
    remove_task(&mut table, 1);
    assert_eq!(get_task(&table, 2).unwrap().started_at.as_deref(), Some(LATER));
}

#[test]
fn listing_holds_the_rows_of_the_status_in_ascending_order() {
    let mut table = TaskTable::new();
    for name in ["a", "b", "c", "d", "e"] {
        add_task(&mut table, name.to_string(), "d".to_string(), NOW).unwrap();
    }
    start_task(&mut table, 4, NOW);
    start_task(&mut table, 2, NOW);
    done_task(&mut table, 5, NOW);
    let ids = |list: Vec<TaskRegisterd>| list.iter().map(|t| t.id).collect::<Vec<i64>>();
    assert_eq!(ids(get_task_list(&table, 0)), vec![1, 3]);
    assert_eq!(ids(get_task_list(&table, 1)), vec![2, 4]);
    assert_eq!(ids(get_task_list(&table, 9)), vec![5]);
    assert!(get_task_list(&table, 2).is_empty());
    assert!(get_task_list(&table, -1).is_empty());
    let in_progress = get_task_list(&table, 1);
    assert_eq!(in_progress[0].task, "b");
    assert_eq!(in_progress[1].task, "d");
    assert!(in_progress.iter().all(|t| t.status == 1));
    remove_task(&mut table, 2);
    assert_eq!(ids(get_task_list(&table, 1)), vec![4]);
}

#[test]
fn update_status_writes_what_the_update_names() {
    let mut table = TaskTable::new();
    add_task(&mut table, "a".to_string(), "d".to_string(), NOW).unwrap();
    assert_eq!(update_status(&mut table, 1, StatusUpdate::done(LATER)), 1);
    assert_eq!(get_task(&table, 1).unwrap().status, 9);
    assert_eq!(update_status(&mut table, 1, StatusUpdate::doing()), 1);
    let got = get_task(&table, 1).unwrap();
    assert_eq!(got.status, 1);
    assert_eq!(got.done_at, None);
    assert_eq!(update_status(&mut table, 9, StatusUpdate::undo()), 0);
}

#[test]
fn execute_runs_each_kind_of_statement() {
    let mut table = TaskTable::new();
    let insert = Statement::Insert { task: "a".to_string(), due_at: "d".to_string() };
    assert_eq!(execute(&mut table, insert, NOW), Ok(1));
    assert_eq!(get_task(&table, 1).unwrap().created_at.as_deref(), Some(NOW));
    let update = Statement::Update { id: 1, transition: Transition::Start };
    assert_eq!(execute(&mut table, update, LATER), Ok(1));
    assert_eq!(get_task(&table, 1).unwrap().started_at.as_deref(), Some(LATER));
    let missing = Statement::Update { id: 7, transition: Transition::Done };
    assert_eq!(execute(&mut table, missing, LATER), Ok(0));
    assert_eq!(execute(&mut table, Statement::Delete { id: 1 }, LATER), Ok(1));
    assert_eq!(execute(&mut table, Statement::Delete { id: 1 }, LATER), Ok(0));
    assert!(get_task(&table, 1).is_err());
}

#[test]
fn from_columns_counts_an_unreadable_timestamp_as_absent() {
    let got = TaskRegisterd::from_columns(
        3,
        "t".to_string(),
        1,
        TextColumn::Text("c".to_string()),
        TextColumn::Unreadable,
        TextColumn::Text("s".to_string()),
        TextColumn::Null,
    );
    assert_eq!(got.id, 3);
    assert_eq!(got.task, "t");
    assert_eq!(got.status, 1);
    assert_eq!(got.created_at.as_deref(), Some("c"));
    assert_eq!(got.due_at, None);
    assert_eq!(got.started_at.as_deref(), Some("s"));
    assert_eq!(got.done_at, None);
    assert_eq!(TextColumn::Text("x".to_string()).text().as_deref(), Some("x"));
    assert_eq!(TextColumn::Null.text(), None);
    assert_eq!(TextColumn::Unreadable.text(), None);
}

#[test]
fn clone_copies_every_column() {
    let mut first = row(4, 9);
    first.started_at = Some(NOW.to_string());
    first.done_at = Some(LATER.to_string());
    let copy = first.clone();
    assert_eq!(copy.id, 4);
    assert_eq!(copy.task, "task 4");
    assert_eq!(copy.status, 9);
    assert_eq!(copy.created_at, first.created_at);
    assert_eq!(copy.due_at, first.due_at);
    assert_eq!(copy.started_at.as_deref(), Some(NOW));
    assert_eq!(copy.done_at.as_deref(), Some(LATER));
}

#[test]
fn failures_are_told_apart() {
    assert_eq!(classify(true, true), StoreError::Connection);
    assert_eq!(classify(true, false), StoreError::Connection);
    assert_eq!(classify(false, true), StoreError::NotFound);
    assert_eq!(classify(false, false), StoreError::Query);
    assert_eq!(store_error(&sqlx::Error::RowNotFound, false), StoreError::NotFound);
    assert_eq!(store_error(&sqlx::Error::PoolClosed, false), StoreError::Query);
    assert_eq!(store_error(&sqlx::Error::PoolTimedOut, false), StoreError::Query);
    assert_eq!(
        store_error(&sqlx::Error::ColumnNotFound("id".to_string()), false),
        StoreError::Query
    );
    assert_eq!(store_error(&sqlx::Error::PoolTimedOut, true), StoreError::Connection);
    assert_eq!(store_error(&sqlx::Error::RowNotFound, true), StoreError::Connection);
}
