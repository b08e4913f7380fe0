use vstd::prelude::*;

verus! {

/// A point in time: seconds and nanoseconds since the Unix epoch, with the
/// offset from UTC (in seconds) of the zone in which it was taken.
#[derive(Clone, Copy, Debug, PartialEq, Eq, Structural)]
pub struct Timestamp {
    pub secs: i64,
    pub nanos: u32,
    pub offset_secs: i32,
}

/// Where a task stands.
#[derive(Clone, Copy, Debug, PartialEq, Eq, Structural)]
pub enum TaskStatus {
    Todo,
    InProgress,
    Done,
}

/// One unit of work.
#[derive(Clone, Debug, PartialEq, Eq)]
pub struct Task {
    pub description: String,
    pub status: TaskStatus,
    /// Fixed when the task is created.
    pub created_at: Timestamp,
    /// Refreshed on every change of description or status.
    pub updated_at: Timestamp,
}

/// Why an operation on the collection was skipped.
#[derive(Clone, Copy, Debug, PartialEq, Eq, Structural)]
pub enum StoreError {
    /// The id is not in `1..=len` for the collection.
    NotFound,
}

/// Whether `id` names a task of a collection of `len` tasks.
pub open spec fn id_in_range(id: int, len: int) -> bool {
    1 <= id <= len
}

} // verus!
