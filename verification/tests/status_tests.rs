use task_tracker::lifecycle::{StampField, StatusUpdate, Transition};
use task_tracker::status::TaskStatus;
use task_tracker::db::TaskRegisterd;

fn sample(status: i32, started_at: Option<&str>, done_at: Option<&str>) -> TaskRegisterd {
    TaskRegisterd {
        id: 11,
        task: "write report".to_string(),
        status,
        created_at: Some("2025-01-01 08:00:00".to_string()),
        due_at: Some("2025-01-31 08:00:00".to_string()),
        started_at: started_at.map(|s| s.to_string()),
        done_at: done_at.map(|s| s.to_string()),
    }
}

#[test]
fn status_codes_are_zero_one_nine() {
    assert_eq!(TaskStatus::NotStarted.code(), 0);
    assert_eq!(TaskStatus::InProgress.code(), 1);
    assert_eq!(TaskStatus::Completed.code(), 9);
    assert_eq!(i32::from(TaskStatus::NotStarted), 0);
    assert_eq!(i32::from(TaskStatus::InProgress), 1);
    assert_eq!(i32::from(TaskStatus::Completed), 9);
    let code: i32 = TaskStatus::Completed.into();
    assert_eq!(code, 9);
}

#[test]
fn from_code_reads_back_the_three_codes_and_no_other() {
    assert_eq!(TaskStatus::from_code(0), Some(TaskStatus::NotStarted));
    assert_eq!(TaskStatus::from_code(1), Some(TaskStatus::InProgress));
    assert_eq!(TaskStatus::from_code(9), Some(TaskStatus::Completed));
    for code in [-1, 2, 3, 8, 10, i32::MIN, i32::MAX] {
        assert_eq!(TaskStatus::from_code(code), None);
    }
    for status in [TaskStatus::NotStarted, TaskStatus::InProgress, TaskStatus::Completed] {
        assert_eq!(TaskStatus::from_code(status.code()), Some(status));
    }
}

#[test]
fn each_transition_names_its_update() {
    let start = Transition::Start.update("t1");
    assert_eq!(start.status, TaskStatus::InProgress);
    assert_eq!(start.field, StampField::StartedAt);
    assert_eq!(start.value.as_deref(), Some("t1"));

    let done = Transition::Done.update("t2");
    assert_eq!(done.status, TaskStatus::Completed);
    assert_eq!(done.field, StampField::DoneAt);
    assert_eq!(done.value.as_deref(), Some("t2"));

    let undo = Transition::Undo.update("t3");
    assert_eq!(undo.status, TaskStatus::NotStarted);
    assert_eq!(undo.field, StampField::StartedAt);
    assert_eq!(undo.value, None);

    let doing = Transition::Doing.update("t4");
    assert_eq!(doing.status, TaskStatus::InProgress);
    assert_eq!(doing.field, StampField::DoneAt);
    assert_eq!(doing.value, None);
}

#[test]
fn update_constructors_agree_with_the_transitions() {
    assert_eq!(StatusUpdate::start("x").value.as_deref(), Some("x"));
    assert_eq!(StatusUpdate::start("x").status, TaskStatus::InProgress);
    assert_eq!(StatusUpdate::done("y").value.as_deref(), Some("y"));
    assert_eq!(StatusUpdate::done("y").field, StampField::DoneAt);
    assert_eq!(StatusUpdate::undo().status, TaskStatus::NotStarted);
    assert_eq!(StatusUpdate::undo().field, StampField::StartedAt);
    assert_eq!(StatusUpdate::doing().status, TaskStatus::InProgress);
    assert_eq!(StatusUpdate::doing().value, None);
}

#[test]
fn apply_writes_status_and_one_timestamp() {
    let mut task = sample(0, None, None);
    task.apply(Transition::Start.update("s"));
    assert_eq!(task.status, 1);
    assert_eq!(task.started_at.as_deref(), Some("s"));
    assert_eq!(task.done_at, None);

    task.apply(Transition::Done.update("d"));
    assert_eq!(task.status, 9);
    assert_eq!(task.started_at.as_deref(), Some("s"));
    assert_eq!(task.done_at.as_deref(), Some("d"));

    task.apply(Transition::Doing.update("ignored"));
    assert_eq!(task.status, 1);
    assert_eq!(task.started_at.as_deref(), Some("s"));
    assert_eq!(task.done_at, None);

    task.apply(Transition::Undo.update("ignored"));
    assert_eq!(task.status, 0);
    assert_eq!(task.started_at, None);
    assert_eq!(task.done_at, None);

    assert_eq!(task.id, 11);
    assert_eq!(task.task, "write report");
    assert_eq!(task.created_at.as_deref(), Some("2025-01-01 08:00:00"));
    assert_eq!(task.due_at.as_deref(), Some("2025-01-31 08:00:00"));
}

#[test]
fn transitions_are_applied_from_any_status() {
    let mut task = sample(9, Some("s"), Some("d"));
    task.apply(Transition::Start.update("again"));
    assert_eq!(task.status, 1);
    assert_eq!(task.started_at.as_deref(), Some("again"));
    assert_eq!(task.done_at.as_deref(), Some("d"));

    let mut task = sample(0, None, None);
    task.apply(Transition::Undo.update("n"));
    assert_eq!(task.status, 0);
    assert_eq!(task.started_at, None);

    let mut task = sample(0, None, None);
    task.apply(Transition::Done.update("d"));
    assert_eq!(task.status, 9);
    assert_eq!(task.started_at, None);
    assert_eq!(task.done_at.as_deref(), Some("d"));
}

#[test]
fn applying_a_transition_twice_keeps_the_later_time() {
    let mut task = sample(0, None, None);
    task.apply(Transition::Start.update("first"));
    task.apply(Transition::Start.update("second"));
    assert_eq!(task.status, 1);
    assert_eq!(task.started_at.as_deref(), Some("second"));
}
