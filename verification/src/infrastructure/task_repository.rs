//! The repository over the table of tasks.

use crate::error::RepositoryError;
use crate::infrastructure::db::DbPool;
use crate::models::task::{now, Task, TaskView};
use crate::repositories::task_repository::{has_id, index_of, lemma_lookup_at, TaskRepository};
use vstd::prelude::*;

verus! {

/// The repository that keeps its records in a `DbPool`. It lists them in
/// insertion order and fails only where the table refuses a row: on a second
/// record with an id it holds, and on an update of a record it does not hold.
pub struct TaskRepositoryImpl {
    pub pool: DbPool,
}

impl TaskRepositoryImpl {
    pub fn new(pool: DbPool) -> (repository: Self)
        ensures
            repository.pool == pool,
            repository.rows() == pool@,
    {
        Self { pool }
    }
}

impl TaskRepository for TaskRepositoryImpl {
    open spec fn rows(&self) -> Seq<TaskView> {
        self.pool@
    }

    open spec fn dependable(&self) -> bool {
        true
    }

    fn find_all(&self) -> (r: Result<Vec<Task>, RepositoryError>)
        ensures
            r is Ok,
    {
        Ok(self.pool.select_all())
    }

    fn find_by_id(&self, id: u128) -> (r: Result<Option<Task>, RepositoryError>)
        ensures
            r is Ok,
    {
        Ok(self.pool.select_by_id(id))
    }

    fn create(&mut self, task: Task) -> (r: Result<Task, RepositoryError>)
        ensures
            r is Ok <==> !has_id(old(self).rows(), task.id),
            r is Ok ==> final(self).rows() == old(self).rows().push(task@),
            r is Err ==> final(self).rows() == old(self).rows(),
    {
        broadcast use vstd::seq_lib::to_multiset_build;

        self.pool.insert(task)
    }

    fn update(&mut self, task: Task) -> (r: Result<Task, RepositoryError>)
        ensures
            r is Ok <==> has_id(old(self).rows(), task.id),
            r is Err ==> r matches Err(RepositoryError::RowNotFound),
            final(self).rows().len() == old(self).rows().len(),
    {
        broadcast use vstd::seq_lib::to_multiset_update;

        let at = now();
        let ghost before = self.pool@;
        let r = self.pool.update(task, at);
        proof {
            if has_id(before, task.id) {
                let i = index_of(before, task.id);
                assert(0 <= i < before.len() && before[i].id == task.id);
                lemma_lookup_at(before, i);
                assert(before.update(i, r.unwrap()@).to_multiset() == before.to_multiset().insert(
                    r.unwrap()@,
                ).remove(before[i]));
                assert(before.to_multiset().count(before[i]) > 0) by {
                    broadcast use vstd::seq_lib::to_multiset_contains;

                    assert(before.contains(before[i]));
                }
                assert(before.to_multiset().insert(r.unwrap()@).remove(before[i])
                    =~= before.to_multiset().remove(before[i]).insert(r.unwrap()@));
            }
        }
        r
    }

    fn delete(&mut self, id: u128) -> (r: Result<(), RepositoryError>)
        ensures
            r is Ok,
            !has_id(final(self).rows(), id),
            final(self).rows() == (if has_id(old(self).rows(), id) {
                old(self).rows().remove(index_of(old(self).rows(), id))
            } else {
                old(self).rows()
            }),
    {
        broadcast use vstd::seq_lib::to_multiset_remove;

        let ghost before = self.pool@;
        let _ = self.pool.delete(id);
        proof {
            if has_id(before, id) {
                let i = index_of(before, id);
                assert(0 <= i < before.len() && before[i].id == id);
                lemma_lookup_at(before, i);
            }
        }
        Ok(())
    }
}

} // verus!
