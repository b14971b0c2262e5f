//! The task record and the plain values it is made of.

use vstd::prelude::*;

verus! {

/// An instant on the UTC time line: whole seconds since the Unix epoch and the
/// nanoseconds within that second.
#[derive(Clone, Copy, Debug, PartialEq, Eq, Structural)]
pub struct Timestamp {
    pub secs: i64,
    pub nanos: u32,
}

impl Timestamp {
    /// `self` is not later than `other`: seconds decide, nanoseconds break ties.
    pub open spec fn le(self, other: Timestamp) -> bool {
        self.secs < other.secs || (self.secs == other.secs && self.nanos <= other.nanos)
    }

    /// Whether `self` is not later than `other`.
    pub fn not_after(self, other: Timestamp) -> (r: bool)
        ensures
            r == self.le(other),
    {
        self.secs < other.secs || (self.secs == other.secs && self.nanos <= other.nanos)
    }

    /// The later of two instants; `self` when they are equal.
    pub fn latest(self, other: Timestamp) -> (r: Timestamp)
        ensures
            r == (if other.le(self) { self } else { other }),
            self.le(r),
            other.le(r),
    {
        if other.not_after(self) {
            self
        } else {
            other
        }
    }
}

/// What a task is, as a mathematical value.
pub struct TaskView {
    pub id: u128,
    pub title: Seq<char>,
    pub completed: bool,
    pub created_at: Timestamp,
    pub updated_at: Timestamp,
}

impl TaskView {
    /// The record carries an identifier and was not updated before it was created.
    pub open spec fn well_formed(self) -> bool {
        self.id != 0 && self.created_at.le(self.updated_at)
    }
}

/// The managed record. `id` is the 128-bit value of the task's UUID.
#[derive(Debug)]
pub struct Task {
    pub id: u128,
    pub title: String,
    pub completed: bool,
    pub created_at: Timestamp,
    pub updated_at: Timestamp,
}

impl View for Task {
    type V = TaskView;

    open spec fn view(&self) -> TaskView {
        TaskView {
            id: self.id,
            title: self.title@,
            completed: self.completed,
            created_at: self.created_at,
            updated_at: self.updated_at,
        }
    }
}

impl Clone for Task {
    fn clone(&self) -> (r: Task)
        ensures
            r@ == self@,
    {
        Task {
            id: self.id,
            title: self.title.clone(),
            completed: self.completed,
            created_at: self.created_at,
            updated_at: self.updated_at,
        }
    }
}

impl PartialEq for Task {
    fn eq(&self, other: &Task) -> (r: bool) {
        self.id == other.id && self.title == other.title && self.completed == other.completed
            && self.created_at == other.created_at && self.updated_at == other.updated_at
    }
}

impl Eq for Task {

}

impl vstd::std_specs::cmp::PartialEqSpecImpl for Task {
    open spec fn obeys_eq_spec() -> bool {
        true
    }

    open spec fn eq_spec(&self, other: &Task) -> bool {
        self@ == other@
    }
}

/// The version nibble of `id` is 7 and its variant bits are those of RFC 9562.
pub open spec fn is_version_7(id: u128) -> bool {
    (id >> 76u128) & 0xfu128 == 7u128 && (id >> 62u128) & 0x3u128 == 2u128
}

/// A version 7 identifier is never the nil UUID.
pub proof fn lemma_version_7_not_nil(id: u128)
    requires
        is_version_7(id),
    ensures
        id != 0,
{
    assert((id >> 76u128) & 0xfu128 == 7u128 ==> id != 0u128) by (bit_vector);
}

/// Calls `uuid::Uuid::now_v7` and hands out the identifier as a 128-bit number
/// (`Uuid::as_u128`, big-endian). Trusted: the crate builds the identifier with
/// version 7 and the RFC variant; the rest of the bits come from the system
/// clock, a counter and a random source, and nothing is said of them. The
/// call panics on a machine whose clock stands before the Unix epoch.
#[verifier::external_body]
fn fresh_id() -> (id: u128)
    ensures
        is_version_7(id),
{
    uuid::Uuid::now_v7().as_u128()
}

/// Calls `chrono::Utc::now` and hands out the reading as seconds and
/// nanoseconds (`timestamp`, `timestamp_subsec_nanos`). Trusted: the reading
/// is the system clock's distance from the Unix epoch, so it is not negative
/// and its nanoseconds stay below a second; which instant it is depends on
/// the clock. The call panics on a machine whose clock stands before the
/// epoch.
#[verifier::external_body]
pub(crate) fn now() -> (t: Timestamp)
    ensures
        t.secs >= 0,
        t.nanos < 1_000_000_000,
{
    let t = chrono::Utc::now();
    Timestamp { secs: t.timestamp(), nanos: t.timestamp_subsec_nanos() }
}

impl Task {
    /// A new task with a fresh time-ordered identifier, not completed, created
    /// and last updated at the current instant. The title is taken as given.
    pub fn new(title: String) -> (task: Task)
        ensures
            task@.title == title@,
            !task.completed,
            is_version_7(task.id),
            task.id != 0,
            task.created_at == task.updated_at,
            task@.well_formed(),
    {
        let id = fresh_id();
        let at = now();
        proof {
            lemma_version_7_not_nil(id);
        }
        Task::from_parts(id, title, at)
    }

    /// The task that creation yields for a given identifier and instant.
    pub fn from_parts(id: u128, title: String, at: Timestamp) -> (task: Task)
        ensures
            task@ == (TaskView {
                id,
                title: title@,
                completed: false,
                created_at: at,
                updated_at: at,
            }),
    {
        Task { id, title, completed: false, created_at: at, updated_at: at }
    }
}

} // verus!
