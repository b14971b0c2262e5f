//! The business rules: what creating a task means, and how a partial update
//! is merged into the stored record.

use crate::error::RepositoryError;
use crate::models::task::{is_version_7, Task, TaskView};
use crate::repositories::task_repository::{distinct_ids, has_id, lemma_create_adds_one};
use crate::repositories::task_repository::{lookup, option_view, refreshed, views, without};
use crate::repositories::task_repository::TaskRepository;
use vstd::prelude::*;

verus! {

/// The view of an optional title.
pub open spec fn title_view(title: Option<String>) -> Option<Seq<char>> {
    match title {
        Some(t) => Some(t@),
        None => None,
    }
}

/// The record that a partial update asks to store: each of title and flag is
/// replaced where a value was supplied and left as stored where none was.
pub open spec fn merged(
    stored: TaskView,
    title: Option<Seq<char>>,
    completed: Option<bool>,
) -> TaskView {
    TaskView {
        id: stored.id,
        title: match title {
            Some(t) => t,
            None => stored.title,
        },
        completed: match completed {
            Some(c) => c,
            None => stored.completed,
        },
        created_at: stored.created_at,
        updated_at: stored.updated_at,
    }
}

/// Decides an update from what the lookup found: without a record the outcome
/// is `RowNotFound`; with one, the record to hand to the repository.
pub fn merge(existing: Option<Task>, title: Option<String>, completed: Option<bool>) -> (r: Result<
    Task,
    RepositoryError,
>)
    ensures
        match existing {
            Some(task) => r matches Ok(m) && m@ == merged(task@, title_view(title), completed),
            None => r matches Err(RepositoryError::RowNotFound),
        },
{
    match existing {
        Some(task) => {
            let mut task = task;
            if let Some(t) = title {
                task.title = t;
            }
            if let Some(c) = completed {
                task.completed = c;
            }
            Ok(task)
        },
        None => Err(RepositoryError::RowNotFound),
    }
}

/// The operations the transport layer may ask for. `tasks` is what the
/// service holds: records with pairwise distinct ids, in listing order.
///
/// Store failures pass through unchanged. `RowNotFound` means that the record
/// an operation needs does not exist.
pub trait TaskService {
    /// The tasks held, in listing order. Left open by an implementation that
    /// does not say what it holds.
    open spec fn tasks(&self) -> Seq<TaskView> {
        arbitrary()
    }

    /// The store behind the service never fails on its own account. Not so
    /// unless the implementation says it.
    open spec fn dependable(&self) -> bool {
        false
    }

    /// Every task, unfiltered, in the store's order.
    fn get_all_tasks(&self) -> (r: Result<Vec<Task>, RepositoryError>)
        requires
            distinct_ids(self.tasks()),
        ensures
            r matches Ok(tasks) ==> views(tasks@) == self.tasks(),
            self.dependable() ==> r is Ok,
    ;

    /// The task with `id`; `Ok(None)` where there is none.
    fn get_task_by_id(&self, id: u128) -> (r: Result<Option<Task>, RepositoryError>)
        requires
            distinct_ids(self.tasks()),
        ensures
            r matches Ok(found) ==> option_view(found) == lookup(self.tasks(), id),
            self.dependable() ==> r is Ok,
    ;

    /// Makes a new task with the given title and stores it. The title is not
    /// examined: an empty one is stored like any other.
    fn create_task(&mut self, title: String) -> (r: Result<Task, RepositoryError>)
        requires
            distinct_ids(old(self).tasks()),
        ensures
            distinct_ids(final(self).tasks()),
            final(self).dependable() == old(self).dependable(),
            old(self).dependable() && r is Err ==> final(self).tasks() == old(self).tasks(),
            r matches Ok(task) ==> {
                &&& task@.title == title@
                &&& !task.completed
                &&& task.id != 0
                &&& task.created_at == task.updated_at
                &&& final(self).tasks().to_multiset() == old(self).tasks().to_multiset().insert(
                    task@,
                )
            },
    ;

    /// Applies a partial update to the task with `id`: a supplied title or
    /// flag replaces the stored one, an omitted one stays. The outcome is
    /// `RowNotFound` only where no task has that id, and then nothing has
    /// changed; on a task that does not exist the call never succeeds.
    fn update_task(&mut self, id: u128, title: Option<String>, completed: Option<bool>) -> (r:
        Result<Task, RepositoryError>)
        requires
            distinct_ids(old(self).tasks()),
        ensures
            distinct_ids(final(self).tasks()),
            r matches Ok(task) ==> {
                &&& lookup(old(self).tasks(), id) matches Some(prev)
                &&& task@ == refreshed(
                    prev,
                    merged(prev, title_view(title), completed),
                    task.updated_at,
                )
                &&& prev.updated_at.le(task.updated_at)
                &&& final(self).tasks().to_multiset() == old(self).tasks().to_multiset().remove(
                    prev,
                ).insert(task@)
            },
            r matches Err(RepositoryError::RowNotFound) ==> {
                &&& lookup(old(self).tasks(), id) is None
                &&& final(self).tasks() == old(self).tasks()
            },
            lookup(old(self).tasks(), id) is None ==> r is Err,
            final(self).dependable() == old(self).dependable(),
            old(self).dependable() ==> (r is Ok || r matches Err(RepositoryError::RowNotFound)),
            old(self).dependable() ==> (r is Ok <==> lookup(old(self).tasks(), id) is Some),
    ;

    /// Removes the task with `id`. An implementation may treat a missing task
    /// as success or report `RowNotFound`; in the second case nothing has
    /// changed.
    fn delete_task(&mut self, id: u128) -> (r: Result<(), RepositoryError>)
        requires
            distinct_ids(old(self).tasks()),
        ensures
            distinct_ids(final(self).tasks()),
            r is Ok ==> final(self).tasks().to_multiset() == without(old(self).tasks(), id),
            r matches Err(RepositoryError::RowNotFound) ==> {
                &&& lookup(old(self).tasks(), id) is None
                &&& final(self).tasks() == old(self).tasks()
            },
            final(self).dependable() == old(self).dependable(),
            old(self).dependable() ==> (r is Ok || r matches Err(RepositoryError::RowNotFound)),
    ;
}

/// The service over a repository. It is the only place where a task is made
/// and where an update is given its meaning.
#[derive(Clone)]
pub struct TaskUsecase<T: TaskRepository> {
    repository: T,
}

impl<T: TaskRepository> TaskUsecase<T> {
    pub fn new(repository: T) -> (usecase: Self)
        ensures
            usecase.tasks() == repository.rows(),
            usecase.dependable() == repository.dependable(),
    {
        Self { repository }
    }
}

impl<T: TaskRepository> TaskService for TaskUsecase<T> {
    closed spec fn tasks(&self) -> Seq<TaskView> {
        self.repository.rows()
    }

    closed spec fn dependable(&self) -> bool {
        self.repository.dependable()
    }

    fn get_all_tasks(&self) -> (r: Result<Vec<Task>, RepositoryError>) {
        self.repository.find_all()
    }

    fn get_task_by_id(&self, id: u128) -> (r: Result<Option<Task>, RepositoryError>) {
        self.repository.find_by_id(id)
    }

    fn create_task(&mut self, title: String) -> (r: Result<Task, RepositoryError>)
        ensures
            r matches Ok(task) ==> is_version_7(task.id),
            // The identifier of the new task was not in use.
            r matches Ok(task) ==> lookup(old(self).tasks(), task.id) is None,
            // On a dependable store the call fails only where the fresh
            // identifier is already held by a record.
            old(self).dependable() ==> (r is Err ==> exists|id: u128|
                is_version_7(id) && #[trigger] has_id(old(self).tasks(), id)),
    {
        let new_task = Task::new(title);
        let ghost fresh = new_task@;
        let r = self.repository.create(new_task);
        proof {
            if r is Ok {
                lemma_create_adds_one(old(self).tasks(), self.tasks(), fresh, fresh.id);
            }
            if old(self).dependable() && r is Err {
                assert(is_version_7(fresh.id) && has_id(old(self).tasks(), fresh.id));
            }
        }
        r
    }

    fn update_task(&mut self, id: u128, title: Option<String>, completed: Option<bool>) -> (r:
        Result<Task, RepositoryError>)
    {
        let existing = match self.repository.find_by_id(id) {
            Ok(found) => found,
            Err(e) => {
                return Err(e);
            },
        };
        match merge(existing, title, completed) {
            Ok(task) => self.repository.update(task),
            Err(e) => Err(e),
        }
    }

    fn delete_task(&mut self, id: u128) -> (r: Result<(), RepositoryError>)
        ensures
            !(r matches Err(RepositoryError::RowNotFound)),
            old(self).dependable() ==> r is Ok,
    {
        self.repository.delete(id)
    }
}

/// Marking a task as completed without giving a title changes the flag and
/// the modification time and nothing else; the modification time does not go
/// back, and a record that was not updated before it was created stays so.
pub proof fn lemma_completing_keeps_the_rest(prev: TaskView, stored: TaskView)
    requires
        stored == refreshed(prev, merged(prev, None, Some(true)), stored.updated_at),
        prev.updated_at.le(stored.updated_at),
    ensures
        stored.completed,
        stored.id == prev.id,
        stored.title == prev.title,
        stored.created_at == prev.created_at,
        prev.updated_at.le(stored.updated_at),
        prev.well_formed() ==> stored.well_formed(),
{
}

/// An update leaves a record that was not updated before it was created:
/// the creation time stays and the modification time does not go back.
pub proof fn lemma_update_keeps_well_formed(
    prev: TaskView,
    title: Option<Seq<char>>,
    completed: Option<bool>,
    stored: TaskView,
)
    requires
        prev.well_formed(),
        stored == refreshed(prev, merged(prev, title, completed), stored.updated_at),
        prev.updated_at.le(stored.updated_at),
    ensures
        stored.well_formed(),
        stored.id == prev.id,
        stored.created_at == prev.created_at,
{
}

/// A merge leaves identity and timestamps alone, keeps what was not
/// supplied, and with nothing supplied keeps the whole record.
pub proof fn lemma_merged_keeps_omitted(
    stored: TaskView,
    title: Option<Seq<char>>,
    completed: Option<bool>,
)
    ensures
        merged(stored, title, completed).id == stored.id,
        merged(stored, title, completed).created_at == stored.created_at,
        merged(stored, title, completed).updated_at == stored.updated_at,
        title is None ==> merged(stored, title, completed).title == stored.title,
        completed is None ==> merged(stored, title, completed).completed == stored.completed,
        merged(stored, None, None) == stored,
{
}

} // verus!
