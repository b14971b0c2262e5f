//! The table of tasks: rows in insertion order, the id as primary key.

use crate::error::RepositoryError;
use crate::models::task::{Task, TaskView, Timestamp};
use crate::repositories::task_repository::{
    distinct_ids, has_id, index_of, lemma_lookup_at, lookup, option_view, refreshed, views,
};
use vstd::prelude::*;

verus! {

/// The store behind the repository: one table, held in memory.
pub struct DbPool {
    rows: Vec<Task>,
}

impl View for DbPool {
    type V = Seq<TaskView>;

    closed spec fn view(&self) -> Seq<TaskView> {
        views(self.rows@)
    }
}

impl DbPool {
    /// The primary key holds: no two rows share an id.
    pub open spec fn well_formed(&self) -> bool {
        distinct_ids(self@)
    }

    /// An empty table.
    pub fn new() -> (pool: DbPool)
        ensures
            pool@ == Seq::<TaskView>::empty(),
            pool.well_formed(),
    {
        let pool = DbPool { rows: Vec::new() };
        assert(pool@ =~= Seq::<TaskView>::empty());
        pool
    }

    /// The number of rows.
    pub fn len(&self) -> (n: usize)
        ensures
            n == self@.len(),
    {
        self.rows.len()
    }

    /// The position of the first row with `id`.
    fn position(&self, id: u128) -> (r: Option<usize>)
        ensures
            match r {
                Some(i) => i < self@.len() && self@[i as int].id == id,
                None => !has_id(self@, id),
            },
    {
        let mut i: usize = 0;
        while i < self.rows.len()
            invariant
                i <= self.rows.len(),
                forall|k: int| 0 <= k < i ==> (#[trigger] self@[k]).id != id,
            decreases self.rows.len() - i,
        {
            if self.rows[i].id == id {
                return Some(i);
            }
            i += 1;
        }
        None
    }

    /// Every row, in insertion order.
    pub fn select_all(&self) -> (tasks: Vec<Task>)
        ensures
            views(tasks@) == self@,
    {
        let mut tasks: Vec<Task> = Vec::new();
        let mut i: usize = 0;
        while i < self.rows.len()
            invariant
                i <= self.rows.len(),
                tasks@.len() == i,
                forall|k: int| 0 <= k < i ==> (#[trigger] tasks@[k])@ == self.rows@[k]@,
            decreases self.rows.len() - i,
        {
            tasks.push(self.rows[i].clone());
            i += 1;
        }
        assert(views(tasks@) =~= self@);
        tasks
    }

    /// The row with `id`, if there is one.
    pub fn select_by_id(&self, id: u128) -> (found: Option<Task>)
        requires
            self.well_formed(),
        ensures
            option_view(found) == lookup(self@, id),
    {
        match self.position(id) {
            Some(i) => {
                proof {
                    lemma_lookup_at(self@, i as int);
                }
                Some(self.rows[i].clone())
            },
            None => None,
        }
    }

    /// Appends `task` as a new row and returns it. A row with the same id
    /// violates the primary key: the table stays as it is and the failure says
    /// so.
    pub fn insert(&mut self, task: Task) -> (r: Result<Task, RepositoryError>)
        requires
            old(self).well_formed(),
        ensures
            final(self).well_formed(),
            match r {
                Ok(stored) => {
                    &&& !has_id(old(self)@, task.id)
                    &&& stored@ == task@
                    &&& final(self)@ == old(self)@.push(task@)
                },
                Err(e) => {
                    &&& has_id(old(self)@, task.id)
                    &&& e is Persistence
                    &&& final(self)@ == old(self)@
                },
            },
    {
        match self.position(task.id) {
            Some(_) => Err(RepositoryError::Persistence("duplicate key in tasks".to_owned())),
            None => {
                let stored = task.clone();
                self.rows.push(task);
                assert(self@ =~= old(self)@.push(task@));
                Ok(stored)
            },
        }
    }

    /// Overwrites title and flag of the row with `task`'s id and stamps it
    /// with `now`, or with the stamp it had where `now` is earlier: the
    /// modification time never runs backwards. Without such a row the table
    /// stays as it is and the outcome is `RowNotFound`.
    pub fn update(&mut self, task: Task, now: Timestamp) -> (r: Result<Task, RepositoryError>)
        requires
            old(self).well_formed(),
        ensures
            final(self).well_formed(),
            match lookup(old(self)@, task.id) {
                Some(prev) => {
                    &&& r matches Ok(stored)
                    &&& stored@ == refreshed(
                        prev,
                        task@,
                        if now.le(prev.updated_at) {
                            prev.updated_at
                        } else {
                            now
                        },
                    )
                    &&& has_id(old(self)@, task.id)
                    &&& final(self)@ == old(self)@.update(index_of(old(self)@, task.id), stored@)
                },
                None => {
                    &&& r matches Err(RepositoryError::RowNotFound)
                    &&& final(self)@ == old(self)@
                },
            },
    {
        match self.position(task.id) {
            Some(i) => {
                proof {
                    lemma_lookup_at(self@, i as int);
                }
                let created_at = self.rows[i].created_at;
                let updated_at = self.rows[i].updated_at.latest(now);
                let row = Task {
                    id: task.id,
                    title: task.title,
                    completed: task.completed,
                    created_at,
                    updated_at,
                };
                let stored = row.clone();
                self.rows.set(i, row);
                assert(self@ =~= old(self)@.update(i as int, stored@));
                Ok(stored)
            },
            None => Err(RepositoryError::RowNotFound),
        }
    }

    /// Removes the row with `id` and says whether there was one; the rows
    /// that stay keep their order.
    pub fn delete(&mut self, id: u128) -> (removed: bool)
        requires
            old(self).well_formed(),
        ensures
            final(self).well_formed(),
            removed == has_id(old(self)@, id),
            !has_id(final(self)@, id),
            final(self)@ == (if has_id(old(self)@, id) {
                old(self)@.remove(index_of(old(self)@, id))
            } else {
                old(self)@
            }),
    {
        match self.position(id) {
            Some(i) => {
                proof {
                    lemma_lookup_at(self@, i as int);
                }
                let _ = self.rows.remove(i);
                assert(self@ =~= old(self)@.remove(i as int));
                assert forall|k: int| 0 <= k < self@.len() implies (#[trigger] self@[k]).id
                    != id by {
                    if k < i {
                        assert(self@[k] == old(self)@[k]);
                        assert(old(self)@[k].id != old(self)@[i as int].id);
                    } else {
                        assert(self@[k] == old(self)@[k + 1]);
                        assert(old(self)@[i as int].id != old(self)@[k + 1].id);
                    }
                }
                true
            },
            None => false,
        }
    }
}

} // verus!
