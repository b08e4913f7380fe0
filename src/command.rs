use vstd::prelude::*;
use crate::clock::now;
use crate::task::{Task, TaskStatus, Timestamp, StoreError};
use crate::store::{
    added, updated, deleted, marked, listed_ids, lookup_result, add_task_at, update_task_at,
    delete_task, mark_task_at, list_tasks,
};

verus! {

/// The one operation that an invocation performs on the collection.
#[derive(Debug)]
pub enum Command {
    Add { description: String },
    Update { id: usize, description: String },
    Delete { id: usize },
    MarkInProgress { id: usize },
    MarkDone { id: usize },
    List { status: Option<TaskStatus> },
}

/// The collection after `command` runs at `now`.
pub open spec fn applied(tasks: Seq<Task>, command: Command, now: Timestamp) -> Seq<Task> {
    match command {
        Command::Add { description } => added(tasks, description, now),
        Command::Update { id, description } => updated(tasks, id as int, description, now),
        Command::Delete { id } => deleted(tasks, id as int),
        Command::MarkInProgress { id } => marked(tasks, id as int, TaskStatus::InProgress, now),
        Command::MarkDone { id } => marked(tasks, id as int, TaskStatus::Done, now),
        Command::List { status } => tasks,
    }
}

/// What `command` reports on `tasks`: the listed ids for `List`, none for
/// a change that took place, `NotFound` for an id that names no task.
pub open spec fn reported(tasks: Seq<Task>, command: Command) -> Result<Seq<usize>, StoreError> {
    match command {
        Command::Add { .. } => Ok(Seq::<usize>::empty()),
        Command::List { status } => Ok(listed_ids(tasks, status)),
        Command::Update { id, .. } | Command::Delete { id } | Command::MarkInProgress { id }
        | Command::MarkDone { id } => match lookup_result(id as int, tasks.len() as int) {
            Ok(_) => Ok(Seq::<usize>::empty()),
            Err(e) => Err(e),
        },
    }
}

/// The view of a command's report: the ids as a sequence.
pub open spec fn report_view(r: Result<Vec<usize>, StoreError>) -> Result<Seq<usize>, StoreError> {
    match r {
        Ok(v) => Ok(v@),
        Err(e) => Err(e),
    }
}

/// Runs `command` on `tasks`, stamping any change with `now`.
pub fn run_command_at(command: Command, now: Timestamp, tasks: &mut Vec<Task>) -> (r: Result<
    Vec<usize>,
    StoreError,
>)
    ensures
        final(tasks)@ == applied(old(tasks)@, command, now),
        report_view(r) == reported(old(tasks)@, command),
{
    let done: Result<(), StoreError> = match command {
        Command::Add { description } => {
            add_task_at(description, now, tasks);
            Ok(())
        },
        Command::Update { id, description } => update_task_at(&id, description, now, tasks),
        Command::Delete { id } => delete_task(&id, tasks),
        Command::MarkInProgress { id } => mark_task_at(&id, TaskStatus::InProgress, now, tasks),
        Command::MarkDone { id } => mark_task_at(&id, TaskStatus::Done, now, tasks),
        Command::List { status } => {
            return Ok(list_tasks(status, tasks));
        },
    };
    match done {
        Ok(()) => Ok(Vec::new()),
        Err(e) => Err(e),
    }
}

/// Runs `command` on `tasks`, stamping any change with the current time.
pub fn run_command(command: Command, tasks: &mut Vec<Task>) -> (r: Result<Vec<usize>, StoreError>)
    ensures
        exists|t: Timestamp| final(tasks)@ == #[trigger] applied(old(tasks)@, command, t),
        report_view(r) == reported(old(tasks)@, command),
{
    let t = now();
    run_command_at(command, t, tasks)
}

} // verus!
