//! The persistence interface over tasks, and the vocabulary its contract is
//! written in: a repository is a sequence of records with pairwise distinct
//! ids, in the order in which it lists them.

use crate::error::RepositoryError;
use crate::models::task::{Task, TaskView, Timestamp};
use vstd::multiset::Multiset;
use vstd::prelude::*;

verus! {

/// The views of a sequence of tasks, in the same order.
pub open spec fn views(tasks: Seq<Task>) -> Seq<TaskView> {
    Seq::new(tasks.len(), |i: int| tasks[i]@)
}

/// The view of an optional task.
pub open spec fn option_view(task: Option<Task>) -> Option<TaskView> {
    match task {
        Some(t) => Some(t@),
        None => None,
    }
}

/// Some record carries `id`.
pub open spec fn has_id(rows: Seq<TaskView>, id: u128) -> bool {
    exists|i: int| 0 <= i < rows.len() && #[trigger] rows[i].id == id
}

/// No two records share an id.
pub open spec fn distinct_ids(rows: Seq<TaskView>) -> bool {
    forall|i: int, j: int|
        #![trigger rows[i], rows[j]]
        0 <= i < j < rows.len() ==> rows[i].id != rows[j].id
}

/// A position at which `id` stands, where there is one.
pub open spec fn index_of(rows: Seq<TaskView>, id: u128) -> int {
    choose|i: int| 0 <= i < rows.len() && #[trigger] rows[i].id == id
}

/// The record with `id`, or `None` where no record carries it.
pub open spec fn lookup(rows: Seq<TaskView>, id: u128) -> Option<TaskView> {
    if has_id(rows, id) {
        Some(rows[index_of(rows, id)])
    } else {
        None
    }
}

/// What an update stores: identity and creation time of the record that was
/// there, title and flag as handed in, and the new modification time.
pub open spec fn refreshed(prev: TaskView, given: TaskView, at: Timestamp) -> TaskView {
    TaskView {
        id: prev.id,
        title: given.title,
        completed: given.completed,
        created_at: prev.created_at,
        updated_at: at,
    }
}

/// The records after a delete of `id`, as a multiset: the record with that id
/// is gone, and where there was none nothing has changed.
pub open spec fn without(rows: Seq<TaskView>, id: u128) -> Multiset<TaskView> {
    match lookup(rows, id) {
        Some(prev) => rows.to_multiset().remove(prev),
        None => rows.to_multiset(),
    }
}

/// With distinct ids, the record found under an id is the one standing at any
/// position that carries the id.
pub proof fn lemma_lookup_at(rows: Seq<TaskView>, i: int)
    requires
        distinct_ids(rows),
        0 <= i < rows.len(),
    ensures
        has_id(rows, rows[i].id),
        index_of(rows, rows[i].id) == i,
        lookup(rows, rows[i].id) == Some(rows[i]),
{
    let id = rows[i].id;
    assert(rows[i].id == id);
    let j = index_of(rows, id);
    assert(0 <= j < rows.len() && rows[j].id == id);
    if j < i {
        assert(rows[j].id != rows[i].id);
    }
    if i < j {
        assert(rows[i].id != rows[j].id);
    }
}

/// With distinct ids, `lookup` is decided by which records the repository
/// holds, not by their order: it finds `v` under `id` exactly when `v` carries
/// `id` and is held.
pub proof fn lemma_lookup_some(rows: Seq<TaskView>, id: u128, v: TaskView)
    requires
        distinct_ids(rows),
    ensures
        lookup(rows, id) == Some(v) <==> (v.id == id && rows.to_multiset().count(v) > 0),
{
    broadcast use vstd::seq_lib::to_multiset_contains;

    if lookup(rows, id) == Some(v) {
        let j = index_of(rows, id);
        assert(0 <= j < rows.len() && rows[j].id == id);
        assert(rows[j] == v);
        assert(rows.contains(v));
    }
    if v.id == id && rows.to_multiset().count(v) > 0 {
        assert(rows.contains(v));
        let i = choose|i: int| 0 <= i < rows.len() && rows[i] == v;
        lemma_lookup_at(rows, i);
    }
}

/// Nothing is found under `id` exactly when no held record carries it.
pub proof fn lemma_lookup_none(rows: Seq<TaskView>, id: u128)
    requires
        distinct_ids(rows),
    ensures
        lookup(rows, id) is None <==> (forall|v: TaskView|
            rows.to_multiset().count(v) > 0 ==> #[trigger] v.id != id),
{
    broadcast use vstd::seq_lib::to_multiset_contains;

    if lookup(rows, id) is None {
        assert forall|v: TaskView| rows.to_multiset().count(v) > 0 implies #[trigger] v.id
            != id by {
            if v.id == id {
                assert(rows.contains(v));
                let i = choose|i: int| 0 <= i < rows.len() && rows[i] == v;
                assert(rows[i].id == id);
            }
        }
    }
    if has_id(rows, id) {
        let j = index_of(rows, id);
        assert(0 <= j < rows.len() && rows[j].id == id);
        assert(rows.contains(rows[j]));
        assert(rows.to_multiset().count(rows[j]) > 0);
    }
}

/// With distinct ids no record is held twice.
pub proof fn lemma_held_once(rows: Seq<TaskView>, v: TaskView)
    requires
        distinct_ids(rows),
    ensures
        rows.to_multiset().count(v) <= 1,
{
    assert(rows.no_duplicates()) by {
        assert forall|i: int, j: int| 0 <= i < rows.len() && 0 <= j < rows.len() && i != j implies rows[i] != rows[j] by {
            if i < j {
                assert(rows[i].id != rows[j].id);
            } else {
                assert(rows[j].id != rows[i].id);
            }
        }
    }
    rows.lemma_multiset_has_no_duplicates();
}

/// Persistence of tasks. An implementation holds records with pairwise
/// distinct ids and lists them in an order of its own choosing (`rows`).
///
/// Any operation may fail with a store failure; the contract says what a
/// result means when one comes back. `RowNotFound` is reserved for an update
/// whose target does not exist. An implementation whose store cannot fail
/// says so with `dependable`, and then owes an answer to every request that
/// the records allow.
pub trait TaskRepository {
    /// The records held, in the order in which `find_all` lists them. Left
    /// open by an implementation that does not say what it holds.
    open spec fn rows(&self) -> Seq<TaskView> {
        arbitrary()
    }

    /// The store never fails on its own account. Not so unless the
    /// implementation says it.
    open spec fn dependable(&self) -> bool {
        false
    }

    /// All records, in the repository's order. Two calls with no write in
    /// between list the same sequence.
    fn find_all(&self) -> (r: Result<Vec<Task>, RepositoryError>)
        requires
            distinct_ids(self.rows()),
        ensures
            r matches Ok(tasks) ==> views(tasks@) == self.rows(),
            !(r matches Err(RepositoryError::RowNotFound)),
            self.dependable() ==> r is Ok,
    ;

    /// The record with `id`; `Ok(None)` where there is none.
    fn find_by_id(&self, id: u128) -> (r: Result<Option<Task>, RepositoryError>)
        requires
            distinct_ids(self.rows()),
        ensures
            r matches Ok(found) ==> option_view(found) == lookup(self.rows(), id),
            !(r matches Err(RepositoryError::RowNotFound)),
            self.dependable() ==> r is Ok,
    ;

    /// Stores `task` as handed in and returns the stored record. A record
    /// with an id that is already held is refused.
    fn create(&mut self, task: Task) -> (r: Result<Task, RepositoryError>)
        requires
            distinct_ids(old(self).rows()),
        ensures
            distinct_ids(final(self).rows()),
            final(self).dependable() == old(self).dependable(),
            r matches Ok(stored) ==> stored@ == task@ && final(self).rows().to_multiset() == old(
                self,
            ).rows().to_multiset().insert(task@),
            !(r matches Err(RepositoryError::RowNotFound)),
            old(self).dependable() ==> {
                &&& r is Ok <==> lookup(old(self).rows(), task.id) is None
                &&& r is Err ==> final(self).rows() == old(self).rows()
            },
    ;

    /// Stores title and flag of `task` under its id, keeps identity and
    /// creation time of the record that was there, and stamps the
    /// modification time with the store's clock, never earlier than the stamp
    /// before. Fails with `RowNotFound` only where no record carries the id;
    /// then nothing has changed.
    fn update(&mut self, task: Task) -> (r: Result<Task, RepositoryError>)
        requires
            distinct_ids(old(self).rows()),
        ensures
            distinct_ids(final(self).rows()),
            final(self).dependable() == old(self).dependable(),
            r matches Ok(stored) ==> {
                &&& lookup(old(self).rows(), task.id) matches Some(prev)
                &&& stored@ == refreshed(prev, task@, stored.updated_at)
                &&& prev.updated_at.le(stored.updated_at)
                &&& final(self).rows().to_multiset() == old(self).rows().to_multiset().remove(
                    prev,
                ).insert(stored@)
            },
            r matches Err(RepositoryError::RowNotFound) ==> {
                &&& lookup(old(self).rows(), task.id) is None
                &&& final(self).rows() == old(self).rows()
            },
            old(self).dependable() ==> (r is Ok || r matches Err(RepositoryError::RowNotFound)),
            old(self).dependable() ==> (r is Ok <==> lookup(old(self).rows(), task.id) is Some),
    ;

    /// Removes the record with `id`; succeeds as well where there is none.
    fn delete(&mut self, id: u128) -> (r: Result<(), RepositoryError>)
        requires
            distinct_ids(old(self).rows()),
        ensures
            distinct_ids(final(self).rows()),
            final(self).dependable() == old(self).dependable(),
            r is Ok ==> final(self).rows().to_multiset() == without(old(self).rows(), id),
            !(r matches Err(RepositoryError::RowNotFound)),
            old(self).dependable() ==> r is Ok,
    ;
}

/// Two repositories that hold the same records with an id find the same
/// record under it, whatever their order.
pub proof fn lemma_lookup_by_holdings(a: Seq<TaskView>, b: Seq<TaskView>, id: u128)
    requires
        distinct_ids(a),
        distinct_ids(b),
        forall|v: TaskView|
            v.id == id ==> (#[trigger] a.to_multiset().count(v) > 0 <==> b.to_multiset().count(v)
                > 0),
    ensures
        lookup(a, id) == lookup(b, id),
{
    match lookup(a, id) {
        Some(v) => {
            lemma_lookup_some(a, id, v);
            assert(a.to_multiset().count(v) > 0);
            lemma_lookup_some(b, id, v);
        },
        None => {
            lemma_lookup_none(a, id);
            assert forall|v: TaskView| b.to_multiset().count(v) > 0 implies #[trigger] v.id
                != id by {
                if v.id == id {
                    assert(a.to_multiset().count(v) > 0);
                }
            }
            lemma_lookup_none(b, id);
        },
    }
}

/// A record that was just created is found under its id, with the values it
/// was created with.
pub proof fn lemma_created_is_found(before: Seq<TaskView>, after: Seq<TaskView>, task: TaskView)
    requires
        distinct_ids(after),
        after.to_multiset() == before.to_multiset().insert(task),
    ensures
        lookup(after, task.id) == Some(task),
{
    broadcast use vstd::multiset::group_multiset_axioms;

    assert(after.to_multiset().count(task) > 0);
    lemma_lookup_some(after, task.id, task);
}

/// Creating a record adds exactly one: the count grows by one, the id was not
/// in use, and every other id finds what it found before.
pub proof fn lemma_create_adds_one(
    before: Seq<TaskView>,
    after: Seq<TaskView>,
    task: TaskView,
    other: u128,
)
    requires
        distinct_ids(before),
        distinct_ids(after),
        after.to_multiset() == before.to_multiset().insert(task),
    ensures
        after.len() == before.len() + 1,
        lookup(before, task.id) is None,
        other != task.id ==> lookup(after, other) == lookup(before, other),
{
    broadcast use vstd::multiset::group_multiset_axioms;
    broadcast use vstd::seq_lib::to_multiset_len;

    assert(after.to_multiset().len() == before.to_multiset().len() + 1);
    if let Some(v) = lookup(before, task.id) {
        lemma_lookup_some(before, task.id, v);
        assert(after.to_multiset().count(v) > 0);
        lemma_lookup_some(after, task.id, v);
        lemma_created_is_found(before, after, task);
        assert(v == task);
        lemma_held_once(after, task);
    }
    if other != task.id {
        assert forall|v: TaskView| v.id == other implies (#[trigger] after.to_multiset().count(v)
            > 0 <==> before.to_multiset().count(v) > 0) by {}
        lemma_lookup_by_holdings(after, before, other);
    }
}

/// After a delete nothing is found under the deleted id.
pub proof fn lemma_deleted_is_absent(before: Seq<TaskView>, after: Seq<TaskView>, id: u128)
    requires
        distinct_ids(before),
        distinct_ids(after),
        after.to_multiset() == without(before, id),
    ensures
        lookup(after, id) is None,
{
    broadcast use vstd::multiset::group_multiset_axioms;

    assert forall|v: TaskView| after.to_multiset().count(v) > 0 implies #[trigger] v.id != id by {
        if v.id == id {
            match lookup(before, id) {
                Some(prev) => {
                    assert(before.to_multiset().count(v) > 0);
                    lemma_lookup_some(before, id, v);
                    lemma_held_once(before, prev);
                },
                None => {
                    lemma_lookup_none(before, id);
                },
            }
        }
    }
    lemma_lookup_none(after, id);
}

/// A delete removes the record with the id and no other: the count falls by
/// one where the id was held and stays where it was not, and every other id
/// finds what it found before.
pub proof fn lemma_delete_removes_one(
    before: Seq<TaskView>,
    after: Seq<TaskView>,
    id: u128,
    other: u128,
)
    requires
        distinct_ids(before),
        distinct_ids(after),
        after.to_multiset() == without(before, id),
    ensures
        after.len() == before.len() - (if lookup(before, id) is Some {
            1int
        } else {
            0int
        }),
        other != id ==> lookup(after, other) == lookup(before, other),
{
    broadcast use vstd::multiset::group_multiset_axioms;
    broadcast use vstd::seq_lib::to_multiset_len;

    vstd::seq_lib::to_multiset_len(before);
    vstd::seq_lib::to_multiset_len(after);
    match lookup(before, id) {
        Some(prev) => {
            lemma_lookup_some(before, id, prev);
            assert(Multiset::singleton(prev).subset_of(before.to_multiset()));
            assert(Multiset::singleton(prev).len() == 1);
            assert(after.to_multiset() == before.to_multiset().sub(Multiset::singleton(prev)));
            assert(after.to_multiset().len() == before.to_multiset().len() - 1);
        },
        None => {
            assert(after.to_multiset().len() == before.to_multiset().len());
        },
    }
    if other != id {
        assert forall|v: TaskView| v.id == other implies (#[trigger] after.to_multiset().count(v)
            > 0 <==> before.to_multiset().count(v) > 0) by {
            if let Some(prev) = lookup(before, id) {
                lemma_lookup_some(before, id, prev);
            }
        }
        lemma_lookup_by_holdings(after, before, other);
    }
}

/// An update replaces the record under its id and no other: the count stays,
/// the id finds the stored record, and every other id finds what it found
/// before.
pub proof fn lemma_update_replaces_one(
    before: Seq<TaskView>,
    after: Seq<TaskView>,
    prev: TaskView,
    stored: TaskView,
    other: u128,
)
    requires
        distinct_ids(before),
        distinct_ids(after),
        lookup(before, prev.id) == Some(prev),
        stored.id == prev.id,
        after.to_multiset() == before.to_multiset().remove(prev).insert(stored),
    ensures
        after.len() == before.len(),
        lookup(after, stored.id) == Some(stored),
        other != prev.id ==> lookup(after, other) == lookup(before, other),
{
    broadcast use vstd::multiset::group_multiset_axioms;
    broadcast use vstd::seq_lib::to_multiset_len;

    lemma_lookup_some(before, prev.id, prev);
    assert(Multiset::singleton(prev).subset_of(before.to_multiset()));
    assert(after.to_multiset().len() == before.to_multiset().len());
    assert(after.to_multiset().count(stored) > 0);
    lemma_lookup_some(after, stored.id, stored);
    if other != prev.id {
        assert forall|v: TaskView| v.id == other implies (#[trigger] after.to_multiset().count(v)
            > 0 <==> before.to_multiset().count(v) > 0) by {}
        lemma_lookup_by_holdings(after, before, other);
    }
}

} // verus!
