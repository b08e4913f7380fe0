//! A personal task tracker's core: the ordered task collection, its
//! identifier scheme, the operations that change it, and the policy for
//! recovering it from storage.
//!
//! Identifiers are 1-based positions: the task at index `i` of the
//! collection has id `i + 1`. Deleting a task therefore shifts the ids of
//! the tasks after it down by one.

pub mod task;
pub mod store;
pub mod persist;
pub mod laws;
pub mod command;
mod clock;

pub use task::{Task, TaskStatus, Timestamp, StoreError};
pub use persist::recover_tasks;
pub use command::{Command, run_command_at, run_command};
pub use store::{
    offset_index, index_in_range, get_task, add_task_at, add_task, update_task_at, update_task,
    delete_task, mark_task_at, mark_task, list_tasks,
};
