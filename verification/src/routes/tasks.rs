//! The task endpoints: one service call each, and the reply that reports its
//! outcome. A reply shows id, title and flag of a task and never the cause of
//! a failure.

use crate::error::RepositoryError;
use crate::models::task::{Task, TaskView};
use crate::repositories::task_repository::{distinct_ids, lookup, views, without};
use crate::routes::status::{
    STATUS_CREATED, STATUS_INTERNAL_SERVER_ERROR, STATUS_NOT_FOUND, STATUS_NO_CONTENT, STATUS_OK,
};
use crate::usecase::task_usecase::{merged, title_view, TaskService};
use vstd::prelude::*;

verus! {

/// What the handlers share: the service they call.
#[derive(Clone)]
pub struct AppState<T: TaskService> {
    pub task_service: T,
}

/// The body of a create request.
pub struct CreateTaskRequest {
    pub title: String,
}

/// The body of an update request; an omitted field is `None`.
pub struct UpdateTaskRequest {
    pub title: Option<String>,
    pub completed: Option<bool>,
}

/// What a client sees of a task. Timestamps are not shown.
#[derive(Debug)]
pub struct TaskResponse {
    pub id: u128,
    pub title: String,
    pub completed: bool,
}

pub struct TaskResponseView {
    pub id: u128,
    pub title: Seq<char>,
    pub completed: bool,
}

impl View for TaskResponse {
    type V = TaskResponseView;

    open spec fn view(&self) -> TaskResponseView {
        TaskResponseView { id: self.id, title: self.title@, completed: self.completed }
    }
}

/// The client's view of a task.
pub open spec fn response_of(task: TaskView) -> TaskResponseView {
    TaskResponseView { id: task.id, title: task.title, completed: task.completed }
}

/// The client's view of each task, in the same order.
pub open spec fn responses_of(tasks: Seq<TaskView>) -> Seq<TaskResponseView> {
    Seq::new(tasks.len(), |i: int| response_of(tasks[i]))
}

impl From<Task> for TaskResponse {
    fn from(task: Task) -> (r: TaskResponse) {
        TaskResponse { id: task.id, title: task.title, completed: task.completed }
    }
}

impl vstd::std_specs::convert::FromSpecImpl<Task> for TaskResponse {
    open spec fn obeys_from_spec() -> bool {
        true
    }

    open spec fn from_spec(task: Task) -> TaskResponse {
        TaskResponse { id: task.id, title: task.title, completed: task.completed }
    }
}

/// The body of a reply.
#[derive(Debug)]
pub enum Body {
    Empty,
    Text(String),
    Task(TaskResponse),
    Tasks(Vec<TaskResponse>),
}

pub enum BodyView {
    Empty,
    Text(Seq<char>),
    Task(TaskResponseView),
    Tasks(Seq<TaskResponseView>),
}

impl View for Body {
    type V = BodyView;

    open spec fn view(&self) -> BodyView {
        match self {
            Body::Empty => BodyView::Empty,
            Body::Text(s) => BodyView::Text(s@),
            Body::Task(t) => BodyView::Task(t@),
            Body::Tasks(ts) => BodyView::Tasks(Seq::new(ts@.len(), |i: int| ts@[i]@)),
        }
    }
}

/// Status code and body of an HTTP answer.
#[derive(Debug)]
pub struct Reply {
    pub status: u16,
    pub body: Body,
}

pub struct ReplyView {
    pub status: u16,
    pub body: BodyView,
}

impl View for Reply {
    type V = ReplyView;

    open spec fn view(&self) -> ReplyView {
        ReplyView { status: self.status, body: self.body@ }
    }
}

/// The reply that carries a short text.
pub open spec fn text_reply(status: u16, text: Seq<char>) -> ReplyView {
    ReplyView { status, body: BodyView::Text(text) }
}

/// The reply that shows one task.
pub open spec fn task_reply(status: u16, task: TaskView) -> ReplyView {
    ReplyView { status, body: BodyView::Task(response_of(task)) }
}

/// The reply to a listing.
pub open spec fn list_outcome(result: Result<Vec<Task>, RepositoryError>) -> ReplyView {
    match result {
        Ok(tasks) => ReplyView {
            status: STATUS_OK,
            body: BodyView::Tasks(responses_of(views(tasks@))),
        },
        Err(_) => text_reply(STATUS_INTERNAL_SERVER_ERROR, "Failed to fetch todos"@),
    }
}

/// The reply to a lookup.
pub open spec fn lookup_outcome(result: Result<Option<Task>, RepositoryError>) -> ReplyView {
    match result {
        Ok(Some(task)) => task_reply(STATUS_OK, task@),
        Ok(None) => text_reply(STATUS_NOT_FOUND, "Task not found"@),
        Err(_) => text_reply(STATUS_INTERNAL_SERVER_ERROR, "Failed to fetch todo"@),
    }
}

/// The reply to a creation.
pub open spec fn create_outcome(result: Result<Task, RepositoryError>) -> ReplyView {
    match result {
        Ok(task) => task_reply(STATUS_CREATED, task@),
        Err(_) => text_reply(STATUS_INTERNAL_SERVER_ERROR, "Failed to create todo"@),
    }
}

/// The reply to an update.
pub open spec fn update_outcome(result: Result<Task, RepositoryError>) -> ReplyView {
    match result {
        Ok(task) => task_reply(STATUS_OK, task@),
        Err(RepositoryError::RowNotFound) => text_reply(STATUS_NOT_FOUND, "Task not found"@),
        Err(_) => text_reply(STATUS_INTERNAL_SERVER_ERROR, "Failed to update todo"@),
    }
}

/// The reply to a deletion.
pub open spec fn delete_outcome(result: Result<(), RepositoryError>) -> ReplyView {
    match result {
        Ok(_) => ReplyView { status: STATUS_NO_CONTENT, body: BodyView::Empty },
        Err(RepositoryError::RowNotFound) => text_reply(STATUS_NOT_FOUND, "Task not found"@),
        Err(_) => text_reply(STATUS_INTERNAL_SERVER_ERROR, "Failed to delete todo"@),
    }
}

fn text(status: u16, message: &str) -> (reply: Reply)
    ensures
        reply@ == text_reply(status, message@),
{
    Reply { status, body: Body::Text(message.to_owned()) }
}

fn show(status: u16, task: Task) -> (reply: Reply)
    ensures
        reply@ == task_reply(status, task@),
{
    Reply { status, body: Body::Task(TaskResponse::from(task)) }
}

/// 200 with every task's client view, in the order given; 500 on a failure.
pub fn list_reply(result: Result<Vec<Task>, RepositoryError>) -> (reply: Reply)
    ensures
        reply@ == list_outcome(result),
{
    match result {
        Ok(tasks) => {
            let mut shown: Vec<TaskResponse> = Vec::new();
            let mut i: usize = 0;
            while i < tasks.len()
                invariant
                    i <= tasks.len(),
                    shown@.len() == i,
                    forall|k: int| 0 <= k < i ==> (#[trigger] shown@[k])@ == response_of(tasks@[k]@),
                decreases tasks.len() - i,
            {
                shown.push(TaskResponse::from(tasks[i].clone()));
                i += 1;
            }
            let reply = Reply { status: STATUS_OK, body: Body::Tasks(shown) };
            assert(reply@.body->Tasks_0 =~= responses_of(views(tasks@)));
            reply
        },
        Err(_) => text(STATUS_INTERNAL_SERVER_ERROR, "Failed to fetch todos"),
    }
}

/// 200 with the task, 404 where there is none, 500 on a failure.
pub fn lookup_reply(result: Result<Option<Task>, RepositoryError>) -> (reply: Reply)
    ensures
        reply@ == lookup_outcome(result),
{
    match result {
        Ok(Some(task)) => show(STATUS_OK, task),
        Ok(None) => text(STATUS_NOT_FOUND, "Task not found"),
        Err(_) => text(STATUS_INTERNAL_SERVER_ERROR, "Failed to fetch todo"),
    }
}

/// 201 with the new task, 500 on a failure.
pub fn create_reply(result: Result<Task, RepositoryError>) -> (reply: Reply)
    ensures
        reply@ == create_outcome(result),
{
    match result {
        Ok(task) => show(STATUS_CREATED, task),
        Err(_) => text(STATUS_INTERNAL_SERVER_ERROR, "Failed to create todo"),
    }
}

/// 200 with the updated task, 404 for "not found", 500 on any other failure.
pub fn update_reply(result: Result<Task, RepositoryError>) -> (reply: Reply)
    ensures
        reply@ == update_outcome(result),
{
    match result {
        Ok(task) => show(STATUS_OK, task),
        Err(RepositoryError::RowNotFound) => text(STATUS_NOT_FOUND, "Task not found"),
        Err(_) => text(STATUS_INTERNAL_SERVER_ERROR, "Failed to update todo"),
    }
}

/// 204 without a body, 404 for "not found", 500 on any other failure.
pub fn delete_reply(result: Result<(), RepositoryError>) -> (reply: Reply)
    ensures
        reply@ == delete_outcome(result),
{
    match result {
        Ok(_) => Reply { status: STATUS_NO_CONTENT, body: Body::Empty },
        Err(RepositoryError::RowNotFound) => text(STATUS_NOT_FOUND, "Task not found"),
        Err(_) => text(STATUS_INTERNAL_SERVER_ERROR, "Failed to delete todo"),
    }
}

/// Lists every task.
pub fn get_tasks<T: TaskService>(state: &AppState<T>) -> (reply: Reply)
    requires
        distinct_ids(state.task_service.tasks()),
    ensures
        reply.status == STATUS_OK ==> reply@.body == BodyView::Tasks(
            responses_of(state.task_service.tasks()),
        ),
        reply.status != STATUS_OK ==> reply@ == text_reply(
            STATUS_INTERNAL_SERVER_ERROR,
            "Failed to fetch todos"@,
        ),
        state.task_service.dependable() ==> reply.status == STATUS_OK,
{
    list_reply(state.task_service.get_all_tasks())
}

/// Shows the task with `id`.
pub fn get_task<T: TaskService>(state: &AppState<T>, id: u128) -> (reply: Reply)
    requires
        distinct_ids(state.task_service.tasks()),
    ensures
        reply.status == STATUS_OK || reply.status == STATUS_NOT_FOUND || reply.status
            == STATUS_INTERNAL_SERVER_ERROR,
        reply.status == STATUS_OK ==> {
            &&& lookup(state.task_service.tasks(), id) matches Some(task)
            &&& reply@ == task_reply(STATUS_OK, task)
        },
        reply.status == STATUS_NOT_FOUND ==> {
            &&& lookup(state.task_service.tasks(), id) is None
            &&& reply@ == text_reply(STATUS_NOT_FOUND, "Task not found"@)
        },
        reply.status == STATUS_INTERNAL_SERVER_ERROR ==> reply@ == text_reply(
            STATUS_INTERNAL_SERVER_ERROR,
            "Failed to fetch todo"@,
        ),
        state.task_service.dependable() ==> reply.status != STATUS_INTERNAL_SERVER_ERROR,
{
    lookup_reply(state.task_service.get_task_by_id(id))
}

/// Creates a task with the title of the request.
pub fn create_task<T: TaskService>(state: &mut AppState<T>, payload: CreateTaskRequest) -> (reply:
    Reply)
    requires
        distinct_ids(old(state).task_service.tasks()),
    ensures
        distinct_ids(final(state).task_service.tasks()),
        reply.status == STATUS_CREATED || reply.status == STATUS_INTERNAL_SERVER_ERROR,
        reply.status == STATUS_CREATED ==> exists|task: TaskView|
            {
                &&& reply@ == #[trigger] task_reply(STATUS_CREATED, task)
                &&& task.title == payload.title@
                &&& !task.completed
                &&& task.id != 0
                &&& task.created_at == task.updated_at
                &&& final(state).task_service.tasks().to_multiset() == old(
                    state,
                ).task_service.tasks().to_multiset().insert(task)
            },
        reply.status == STATUS_INTERNAL_SERVER_ERROR ==> reply@ == text_reply(
            STATUS_INTERNAL_SERVER_ERROR,
            "Failed to create todo"@,
        ),
        final(state).task_service.dependable() == old(state).task_service.dependable(),
{
    let result = state.task_service.create_task(payload.title);
    let ghost created = result;
    let reply = create_reply(result);
    proof {
        if created is Ok {
            assert(reply@ == task_reply(STATUS_CREATED, created->Ok_0@));
        }
    }
    reply
}

/// Applies the request's partial update to the task with `id`.
pub fn update_task<T: TaskService>(
    state: &mut AppState<T>,
    id: u128,
    payload: UpdateTaskRequest,
) -> (reply: Reply)
    requires
        distinct_ids(old(state).task_service.tasks()),
    ensures
        distinct_ids(final(state).task_service.tasks()),
        reply.status == STATUS_OK || reply.status == STATUS_NOT_FOUND || reply.status
            == STATUS_INTERNAL_SERVER_ERROR,
        reply.status == STATUS_OK ==> {
            &&& lookup(old(state).task_service.tasks(), id) matches Some(prev)
            &&& reply@ == task_reply(
                STATUS_OK,
                merged(prev, title_view(payload.title), payload.completed),
            )
        },
        reply.status == STATUS_NOT_FOUND ==> {
            &&& lookup(old(state).task_service.tasks(), id) is None
            &&& final(state).task_service.tasks() == old(state).task_service.tasks()
            &&& reply@ == text_reply(STATUS_NOT_FOUND, "Task not found"@)
        },
        reply.status == STATUS_INTERNAL_SERVER_ERROR ==> reply@ == text_reply(
            STATUS_INTERNAL_SERVER_ERROR,
            "Failed to update todo"@,
        ),
        old(state).task_service.dependable() ==> reply.status != STATUS_INTERNAL_SERVER_ERROR,
        final(state).task_service.dependable() == old(state).task_service.dependable(),
{
    update_reply(state.task_service.update_task(id, payload.title, payload.completed))
}

/// Removes the task with `id`.
pub fn delete_task<T: TaskService>(state: &mut AppState<T>, id: u128) -> (reply: Reply)
    requires
        distinct_ids(old(state).task_service.tasks()),
    ensures
        distinct_ids(final(state).task_service.tasks()),
        reply.status == STATUS_NO_CONTENT || reply.status == STATUS_NOT_FOUND || reply.status
            == STATUS_INTERNAL_SERVER_ERROR,
        reply.status == STATUS_NO_CONTENT ==> {
            &&& final(state).task_service.tasks().to_multiset() == without(
                old(state).task_service.tasks(),
                id,
            )
            &&& reply@.body == BodyView::Empty
        },
        reply.status == STATUS_NOT_FOUND ==> {
            &&& lookup(old(state).task_service.tasks(), id) is None
            &&& final(state).task_service.tasks() == old(state).task_service.tasks()
            &&& reply@ == text_reply(STATUS_NOT_FOUND, "Task not found"@)
        },
        reply.status == STATUS_INTERNAL_SERVER_ERROR ==> reply@ == text_reply(
            STATUS_INTERNAL_SERVER_ERROR,
            "Failed to delete todo"@,
        ),
        old(state).task_service.dependable() ==> reply.status != STATUS_INTERNAL_SERVER_ERROR,
        final(state).task_service.dependable() == old(state).task_service.dependable(),
{
    delete_reply(state.task_service.delete_task(id))
}

} // verus!
