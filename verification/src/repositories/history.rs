//! Runs of writes against a repository, and how many records they leave.

use crate::models::task::TaskView;
use crate::repositories::task_repository::{
    distinct_ids, lemma_create_adds_one, lemma_created_is_found, lemma_delete_removes_one,
    lemma_deleted_is_absent, lemma_lookup_at, lemma_update_replaces_one, lookup, without,
};
use vstd::prelude::*;

verus! {

/// A write that succeeded.
pub enum Write {
    /// The record was created.
    Create(TaskView),
    /// The first record was replaced by the second.
    Update(TaskView, TaskView),
    /// A delete of the id was carried out.
    Delete(u128),
}

/// `after` is what the write makes of `before`, as the repository's contract
/// describes it.
pub open spec fn step(before: Seq<TaskView>, write: Write, after: Seq<TaskView>) -> bool {
    &&& distinct_ids(before)
    &&& distinct_ids(after)
    &&& match write {
        Write::Create(task) => after.to_multiset() == before.to_multiset().insert(task),
        Write::Update(prev, stored) => {
            &&& lookup(before, prev.id) == Some(prev)
            &&& stored.id == prev.id
            &&& after.to_multiset() == before.to_multiset().remove(prev).insert(stored)
        },
        Write::Delete(id) => after.to_multiset() == without(before, id),
    }
}

/// `states` are the contents of a repository that starts empty and goes
/// through `writes` one after the other.
pub open spec fn run(states: Seq<Seq<TaskView>>, writes: Seq<Write>) -> bool {
    &&& states.len() == writes.len() + 1
    &&& states[0].len() == 0
    &&& forall|i: int|
        0 <= i < writes.len() ==> step(states[i], #[trigger] writes[i], states[i + 1])
}

/// How many of the first `n` writes created a record.
pub open spec fn created(writes: Seq<Write>, n: int) -> int
    decreases n,
{
    if n <= 0 {
        0
    } else {
        created(writes, n - 1) + (if writes[n - 1] is Create {
            1int
        } else {
            0int
        })
    }
}

/// How many of the first `n` writes deleted a record that was there.
pub open spec fn deleted(states: Seq<Seq<TaskView>>, writes: Seq<Write>, n: int) -> int
    decreases n,
{
    if n <= 0 {
        0
    } else {
        deleted(states, writes, n - 1) + (match writes[n - 1] {
            Write::Delete(id) => if lookup(states[n - 1], id) is Some {
                1int
            } else {
                0int
            },
            _ => 0int,
        })
    }
}

/// After any run of writes the repository holds as many records as were
/// created less those that were deleted.
pub proof fn lemma_count_after_writes(states: Seq<Seq<TaskView>>, writes: Seq<Write>, n: int)
    requires
        run(states, writes),
        0 <= n <= writes.len(),
    ensures
        states[n].len() == created(writes, n) - deleted(states, writes, n),
    decreases n,
{
    if n > 0 {
        lemma_count_after_writes(states, writes, n - 1);
        let before = states[n - 1];
        let after = states[n - 1 + 1];
        assert(step(before, writes[n - 1], after));
        match writes[n - 1] {
            Write::Create(task) => {
                lemma_create_adds_one(before, after, task, task.id);
            },
            Write::Update(prev, stored) => {
                lemma_update_replaces_one(before, after, prev, stored, prev.id);
            },
            Write::Delete(id) => {
                lemma_delete_removes_one(before, after, id, id);
            },
        }
    }
}

/// What the first `n` writes leave under `id`: the record of the last create
/// or update of that id, unless a delete of it came later.
pub open spec fn live(writes: Seq<Write>, n: int, id: u128) -> Option<TaskView>
    decreases n,
{
    if n <= 0 {
        None
    } else {
        match writes[n - 1] {
            Write::Create(task) => if task.id == id {
                Some(task)
            } else {
                live(writes, n - 1, id)
            },
            Write::Update(_, stored) => if stored.id == id {
                Some(stored)
            } else {
                live(writes, n - 1, id)
            },
            Write::Delete(gone) => if gone == id {
                None
            } else {
                live(writes, n - 1, id)
            },
        }
    }
}

/// After any run of writes, what is found under an id is what the last write
/// to that id left there, and nothing where it was deleted or never created.
pub proof fn lemma_found_is_live(
    states: Seq<Seq<TaskView>>,
    writes: Seq<Write>,
    n: int,
    id: u128,
)
    requires
        run(states, writes),
        0 <= n <= writes.len(),
    ensures
        lookup(states[n], id) == live(writes, n, id),
    decreases n,
{
    if n > 0 {
        lemma_found_is_live(states, writes, n - 1, id);
        let before = states[n - 1];
        let after = states[n - 1 + 1];
        assert(step(before, writes[n - 1], after));
        match writes[n - 1] {
            Write::Create(task) => {
                lemma_created_is_found(before, after, task);
                lemma_create_adds_one(before, after, task, id);
            },
            Write::Update(prev, stored) => {
                lemma_update_replaces_one(before, after, prev, stored, id);
            },
            Write::Delete(gone) => {
                lemma_deleted_is_absent(before, after, gone);
                lemma_delete_removes_one(before, after, gone, id);
            },
        }
    }
}

/// After any run of writes, every record that is listed is the live record
/// of its id, with the values of the last write to it.
pub proof fn lemma_listed_is_live(states: Seq<Seq<TaskView>>, writes: Seq<Write>, i: int)
    requires
        run(states, writes),
        0 <= i < states[writes.len() as int].len(),
    ensures
        live(writes, writes.len() as int, states[writes.len() as int][i].id) == Some(
            states[writes.len() as int][i],
        ),
{
    let last = states[writes.len() as int];
    if writes.len() > 0 {
        assert(step(states[writes.len() - 1], writes[writes.len() - 1], last));
    }
    lemma_lookup_at(last, i);
    lemma_found_is_live(states, writes, writes.len() as int, last[i].id);
}

} // verus!
