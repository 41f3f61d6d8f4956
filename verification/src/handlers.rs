//! What each request does: which statement it runs against the task table,
//! and where it sends the browser afterwards.
//!
//! A handler takes the fields of the submitted form as plain values. It
//! never reports a missing or empty field: such a request runs no statement
//! and is answered like one that ran its statement, by a redirect to the
//! listing. A request whose statement fails is not answered by the redirect:
//! it fails, and leaves the table as it was.

use vstd::prelude::*;
use crate::clock::{default_due_at, due_text, in_four_digit_years, shifted, Timestamp};
use crate::db::{
    execute, get_task_list, text_view, views, Statement, StoreError, TaskRegisterd, TaskTable,
};
use crate::model::{StatementView, TableView};
use crate::lifecycle::Transition;
use crate::status::TaskStatus;

verus! {

/// The days between creation and due date where the setting names none.
pub const DEFAULT_DUE_DAYS: i64 = 30;

/// The status code of a redirect.
pub const FOUND: u16 = 302;

/// The status code of the response to a request that failed.
pub const SERVER_ERROR: u16 = 500;

/// The path of the listing, to which every form handler redirects.
pub const LISTING_PATH: &'static str = "/";

/// The fields of a submitted form. Each may be missing.
#[derive(Debug)]
pub struct TaskForm {
    /// The id of the task that the request is about.
    pub id: Option<i64>,
    /// The text of a task to create.
    pub task: Option<String>,
    /// The due date of a task to create.
    pub due_at: Option<String>,
}

/// A [`TaskForm`] as a mathematical value.
pub struct TaskFormView {
    pub id: Option<i64>,
    pub task: Option<Seq<char>>,
    pub due_at: Option<Seq<char>>,
}

impl View for TaskForm {
    type V = TaskFormView;

    open spec fn view(&self) -> TaskFormView {
        TaskFormView { id: self.id, task: text_view(self.task), due_at: text_view(self.due_at) }
    }
}

/// The answer to a form request: a redirect.
#[derive(Debug)]
pub struct Redirect {
    /// The status code of the response.
    pub status: u16,
    /// The path that the `Location` header names.
    pub location: String,
}

impl Redirect {
    /// Whether this is the redirect to the listing.
    pub open spec fn to_listing(self) -> bool {
        self.status == FOUND && self.location@ == LISTING_PATH@
    }

    /// The redirect to the listing.
    pub fn listing() -> (reply: Redirect)
        ensures
            reply.to_listing(),
    {
        Redirect { status: FOUND, location: LISTING_PATH.to_owned() }
    }
}

/// Why a request could not be served.
#[derive(Clone, Copy, Debug, PartialEq, Eq, Structural)]
pub enum RequestError {
    /// The form names no due date, and the default one lies beyond the dates
    /// that can be written.
    NoDueDate,
    /// The store failed on the statement of the request.
    Store(StoreError),
}

/// The status code of the response to a request: that of the redirect where
/// the request was served, and that of a server error where it failed.
pub open spec fn spec_response_status(reply: Result<Redirect, RequestError>) -> u16 {
    match reply {
        Ok(redirect) => redirect.status,
        Err(_) => SERVER_ERROR,
    }
}

/// The status code of the response to a request.
pub fn response_status(reply: &Result<Redirect, RequestError>) -> (status: u16)
    ensures
        status == spec_response_status(*reply),
{
    match reply {
        Ok(redirect) => redirect.status,
        Err(_) => SERVER_ERROR,
    }
}

/// The integer that a text spells, as `str::parse::<i64>` reads it; `None`
/// for a text that it refuses.
pub uninterp spec fn parsed_i64(text: Seq<char>) -> Option<i64>;

/// Calls std: `str::parse::<i64>`. The contract claims only that the outcome
/// is a function of the text, named `parsed_i64`: the integer where std reads
/// one, `None` where it reports an error.
#[verifier::external_body]
fn parse_i64(text: &str) -> (number: Option<i64>)
    ensures
        number == parsed_i64(text@),
{
    text.parse::<i64>().ok()
}

/// The days between creation and due date, given what reading the setting
/// as an integer gave.
pub open spec fn days_or_default(parsed: Option<i64>) -> i64 {
    match parsed {
        Some(days) => days,
        None => DEFAULT_DUE_DAYS,
    }
}

/// The days between creation and due date under a setting: the integer that
/// the setting spells, and the default where the setting is missing or spells
/// none.
pub open spec fn spec_default_due_days(setting: Option<Seq<char>>) -> i64 {
    match setting {
        Some(text) => days_or_default(parsed_i64(text)),
        None => DEFAULT_DUE_DAYS,
    }
}

/// The days between creation and due date, given what reading the setting
/// as an integer gave: that integer, or the default where there is none.
pub fn due_days_or_default(parsed: Option<i64>) -> (days: i64)
    ensures
        days == days_or_default(parsed),
{
    match parsed {
        Some(days) => days,
        None => DEFAULT_DUE_DAYS,
    }
}

/// The days between creation and due date under a setting.
pub fn default_due_days(setting: &Option<String>) -> (days: i64)
    ensures
        days == spec_default_due_days(text_view(*setting)),
{
    match setting {
        Some(text) => due_days_or_default(parse_i64(text.as_str())),
        None => DEFAULT_DUE_DAYS,
    }
}

/// The statement of a creation request. A form without a task text, or with
/// an empty one, asks for nothing. Otherwise the task is inserted with the
/// due date of the form, or with `default_due` where the form names none.
pub open spec fn spec_create_statement(form: TaskFormView, default_due: Option<Seq<char>>) -> Result<
    Option<StatementView>,
    RequestError,
> {
    if form.task is Some && form.task->0.len() > 0 {
        if form.due_at is Some {
            Ok(Some(StatementView::Insert { task: form.task->0, due_at: form.due_at->0 }))
        } else if default_due is Some {
            Ok(Some(StatementView::Insert { task: form.task->0, due_at: default_due->0 }))
        } else {
            Err(RequestError::NoDueDate)
        }
    } else {
        Ok(None)
    }
}

/// The statement of a request for a transition: it addresses the task that
/// the form names, and asks for nothing where the form names none.
pub open spec fn spec_transition_statement(form: TaskFormView, transition: Transition) -> Option<
    StatementView,
> {
    match form.id {
        Some(id) => Some(StatementView::Update { id: id as int, transition }),
        None => None,
    }
}

/// The statement of a deletion request: it addresses the task that the form
/// names, and asks for nothing where the form names none.
pub open spec fn spec_delete_statement(form: TaskFormView) -> Option<StatementView> {
    match form.id {
        Some(id) => Some(StatementView::Delete { id: id as int }),
        None => None,
    }
}

/// The statement that a handler runs, if any, as a mathematical value.
pub open spec fn plan_view(planned: Option<Statement>) -> Option<StatementView> {
    match planned {
        Some(statement) => Some(statement@),
        None => None,
    }
}

/// The outcome of planning a creation, as a mathematical value.
pub open spec fn outcome_view(planned: Result<Option<Statement>, RequestError>) -> Result<
    Option<StatementView>,
    RequestError,
> {
    match planned {
        Ok(statement) => Ok(plan_view(statement)),
        Err(e) => Err(e),
    }
}

/// Decides what a creation request asks for, given the due date that a task
/// gets when the form names none (`None` where there is no such date).
pub fn create_statement(form: TaskForm, default_due: Option<String>) -> (planned: Result<
    Option<Statement>,
    RequestError,
>)
    ensures
        outcome_view(planned) == spec_create_statement(form@, text_view(default_due)),
{
    match form.task {
        Some(task) => {
            if task.as_str().is_empty() {
                Ok(None)
            } else {
                match form.due_at {
                    Some(due_at) => Ok(Some(Statement::Insert { task, due_at })),
                    None => match default_due {
                        Some(due_at) => Ok(Some(Statement::Insert { task, due_at })),
                        None => Err(RequestError::NoDueDate),
                    },
                }
            }
        },
        None => Ok(None),
    }
}

/// Decides what a request for `transition` asks for.
pub fn transition_statement(form: &TaskForm, transition: Transition) -> (planned: Option<Statement>)
    ensures
        plan_view(planned) == spec_transition_statement(form@, transition),
{
    match form.id {
        Some(id) => Some(Statement::Update { id, transition }),
        None => None,
    }
}

/// Decides what a deletion request asks for.
pub fn delete_statement(form: &TaskForm) -> (planned: Option<Statement>)
    ensures
        plan_view(planned) == spec_delete_statement(form@),
{
    match form.id {
        Some(id) => Some(Statement::Delete { id }),
        None => None,
    }
}

impl TableView {
    /// What running the plan of a handler at the time `now` gives: the table
    /// afterwards, or the failure of the store where the table refuses the
    /// statement. Without a statement the table stays as it is.
    pub open spec fn performed(self, planned: Option<StatementView>, now: Seq<char>) -> Result<
        TableView,
        RequestError,
    > {
        match planned {
            Some(statement) => if self.refuses(statement) {
                Err(RequestError::Store(StoreError::Query))
            } else {
                Ok(self.executed(statement, now))
            },
            None => Ok(self),
        }
    }

    /// What a creation request at the time `now` gives, where `default_due`
    /// is the due date of a task for which the form names none.
    pub open spec fn created(
        self,
        form: TaskFormView,
        default_due: Option<Seq<char>>,
        now: Seq<char>,
    ) -> Result<TableView, RequestError> {
        match spec_create_statement(form, default_due) {
            Ok(planned) => self.performed(planned, now),
            Err(e) => Err(e),
        }
    }
}

/// Whether `reply` answers a request that was to take the table `before` to
/// `outcome`: a request that was served is answered by the redirect to the
/// listing, and the table is as `outcome` says; one that failed is answered
/// by its failure, and the table is as it was.
pub open spec fn answers(
    reply: Result<Redirect, RequestError>,
    before: TableView,
    after: TableView,
    outcome: Result<TableView, RequestError>,
) -> bool {
    match outcome {
        Ok(table) => {
            &&& reply is Ok
            &&& reply->Ok_0.to_listing()
            &&& after == table
        },
        Err(e) => {
            &&& reply is Err
            &&& reply->Err_0 == e
            &&& after == before
        },
    }
}

/// Runs what a handler planned. Where the statement ran, and where none was
/// planned, the answer is the redirect to the listing. Where the statement
/// failed, the failure is the answer.
pub fn perform(table: &mut TaskTable, planned: Option<Statement>, now: &str) -> (reply: Result<
    Redirect,
    RequestError,
>)
    ensures
        answers(reply, old(table)@, final(table)@, old(table)@.performed(plan_view(planned), now@)),
{
    match planned {
        Some(statement) => match execute(table, statement, now) {
            Ok(_) => Ok(Redirect::listing()),
            Err(e) => Err(RequestError::Store(e)),
        },
        None => Ok(Redirect::listing()),
    }
}

/// Handles a creation request at the time `now`. A form with a task text
/// that is not empty has the task inserted: with the due date of the form, or
/// else with the date that lies the configured number of days after `now`.
/// Any other form changes nothing. Both are answered by the redirect to the
/// listing. The request fails, and changes nothing, where the due date has to
/// be made up and cannot be written, and where the table refuses the
/// insertion.
pub fn create(
    table: &mut TaskTable,
    form: TaskForm,
    due_days_setting: &Option<String>,
    now: &Timestamp,
) -> (reply: Result<Redirect, RequestError>)
    ensures
        answers(
            reply,
            old(table)@,
            final(table)@,
            old(table)@.created(
                form@,
                due_text(now.spec_seconds(), spec_default_due_days(text_view(*due_days_setting))),
                now.spec_text(),
            ),
        ),
        in_four_digit_years(
            shifted(
                now.spec_seconds() as int,
                spec_default_due_days(text_view(*due_days_setting)) as int,
            ),
        ) && !old(table)@.full() ==> reply is Ok,
{
    let days = default_due_days(due_days_setting);
    let default_due = default_due_at(now, days);
    match create_statement(form, default_due) {
        Ok(planned) => perform(table, planned, now.text()),
        Err(e) => Err(e),
    }
}

/// Handles a request to take a task into work at the time `now`.
pub fn start(table: &mut TaskTable, form: &TaskForm, now: &Timestamp) -> (reply: Result<
    Redirect,
    RequestError,
>)
    ensures
        answers(
            reply,
            old(table)@,
            final(table)@,
            old(table)@.performed(
                spec_transition_statement(form@, Transition::Start),
                now.spec_text(),
            ),
        ),
        reply is Ok,
{
    perform(table, transition_statement(form, Transition::Start), now.text())
}

/// Handles a request to mark a task as finished at the time `now`.
pub fn done(table: &mut TaskTable, form: &TaskForm, now: &Timestamp) -> (reply: Result<
    Redirect,
    RequestError,
>)
    ensures
        answers(
            reply,
            old(table)@,
            final(table)@,
            old(table)@.performed(
                spec_transition_statement(form@, Transition::Done),
                now.spec_text(),
            ),
        ),
        reply is Ok,
{
    perform(table, transition_statement(form, Transition::Done), now.text())
}

/// Handles a request to take a task back to not started.
pub fn undo(table: &mut TaskTable, form: &TaskForm, now: &Timestamp) -> (reply: Result<
    Redirect,
    RequestError,
>)
    ensures
        answers(
            reply,
            old(table)@,
            final(table)@,
            old(table)@.performed(
                spec_transition_statement(form@, Transition::Undo),
                now.spec_text(),
            ),
        ),
        reply is Ok,
{
    perform(table, transition_statement(form, Transition::Undo), now.text())
}

/// Handles a request to take a finished task back into work.
pub fn doing(table: &mut TaskTable, form: &TaskForm, now: &Timestamp) -> (reply: Result<
    Redirect,
    RequestError,
>)
    ensures
        answers(
            reply,
            old(table)@,
            final(table)@,
            old(table)@.performed(
                spec_transition_statement(form@, Transition::Doing),
                now.spec_text(),
            ),
        ),
        reply is Ok,
{
    perform(table, transition_statement(form, Transition::Doing), now.text())
}

/// Handles a request to remove a task.
pub fn delete(table: &mut TaskTable, form: &TaskForm, now: &Timestamp) -> (reply: Result<
    Redirect,
    RequestError,
>)
    ensures
        answers(
            reply,
            old(table)@,
            final(table)@,
            old(table)@.performed(spec_delete_statement(form@), now.spec_text()),
        ),
        reply is Ok,
{
    perform(table, delete_statement(form), now.text())
}

/// What the listing shows: the tasks of each status, in ascending order of
/// their ids.
#[derive(Debug)]
pub struct TodoPage {
    /// The tasks that nobody has begun to work on.
    pub unstarted_tasks: Vec<TaskRegisterd>,
    /// The tasks in work.
    pub in_progress_tasks: Vec<TaskRegisterd>,
    /// The finished tasks.
    pub completed_tasks: Vec<TaskRegisterd>,
}

/// Handles a request for the listing: fetches the tasks of each status.
pub fn todo(table: &TaskTable) -> (page: TodoPage)
    ensures
        table@.lists(TaskStatus::NotStarted.spec_code(), views(page.unstarted_tasks@)),
        table@.lists(TaskStatus::InProgress.spec_code(), views(page.in_progress_tasks@)),
        table@.lists(TaskStatus::Completed.spec_code(), views(page.completed_tasks@)),
{
    let unstarted_tasks = get_task_list(table, TaskStatus::NotStarted.into());
    let in_progress_tasks = get_task_list(table, TaskStatus::InProgress.into());
    let completed_tasks = get_task_list(table, TaskStatus::Completed.into());
    TodoPage { unstarted_tasks, in_progress_tasks, completed_tasks }
}

} // verus!
