use vstd::prelude::*;
use crate::clock::now;
use crate::task::{Task, TaskStatus, Timestamp, StoreError, id_in_range};

verus! {

/// The task that `add` appends.
pub open spec fn new_task(description: String, now: Timestamp) -> Task {
    Task { description, status: TaskStatus::Todo, created_at: now, updated_at: now }
}

/// The collection after adding a task described by `description` at `now`.
pub open spec fn added(tasks: Seq<Task>, description: String, now: Timestamp) -> Seq<Task> {
    tasks.push(new_task(description, now))
}

/// The collection after setting the description of task `id` at `now`;
/// unchanged when `id` names no task.
pub open spec fn updated(tasks: Seq<Task>, id: int, description: String, now: Timestamp) -> Seq<Task> {
    if id_in_range(id, tasks.len() as int) {
        let t = tasks[id - 1];
        tasks.update(
            id - 1,
            Task { description, status: t.status, created_at: t.created_at, updated_at: now },
        )
    } else {
        tasks
    }
}

/// The collection after removing task `id`; unchanged when `id` names no task.
pub open spec fn deleted(tasks: Seq<Task>, id: int) -> Seq<Task> {
    if id_in_range(id, tasks.len() as int) {
        tasks.remove(id - 1)
    } else {
        tasks
    }
}

/// The collection after setting the status of task `id` at `now`;
/// unchanged when `id` names no task.
pub open spec fn marked(tasks: Seq<Task>, id: int, status: TaskStatus, now: Timestamp) -> Seq<Task> {
    if id_in_range(id, tasks.len() as int) {
        let t = tasks[id - 1];
        tasks.update(
            id - 1,
            Task { description: t.description, status, created_at: t.created_at, updated_at: now },
        )
    } else {
        tasks
    }
}

/// Whether `task` passes the optional status filter.
pub open spec fn status_matches(task: Task, filter: Option<TaskStatus>) -> bool {
    match filter {
        None => true,
        Some(s) => task.status == s,
    }
}

/// The ids of the tasks that pass `filter`, in collection order.
pub open spec fn listed_ids(tasks: Seq<Task>, filter: Option<TaskStatus>) -> Seq<usize>
    decreases tasks.len(),
{
    if tasks.len() == 0 {
        seq![]
    } else {
        let before = listed_ids(tasks.drop_last(), filter);
        if status_matches(tasks.last(), filter) {
            before.push(tasks.len() as usize)
        } else {
            before
        }
    }
}

/// The outcome that an operation on task `id` reports.
pub open spec fn lookup_result(id: int, len: int) -> Result<(), StoreError> {
    if id_in_range(id, len) {
        Ok(())
    } else {
        Err(StoreError::NotFound)
    }
}

/// The index in the collection of the task with id `id`.
pub fn offset_index(id: &usize) -> (r: usize)
    requires
        *id >= 1,
    ensures
        r == *id - 1,
{
    *id - 1
}

/// Whether `id` names a task of `tasks`.
pub fn index_in_range(id: &usize, tasks: &Vec<Task>) -> (r: bool)
    ensures
        r == id_in_range(*id as int, tasks@.len() as int),
{
    0 < *id && *id <= tasks.len()
}

/// The task with id `id`, to be changed in place; `None` when `id` names
/// no task.
pub fn get_task<'a>(id: &usize, tasks: &'a mut Vec<Task>) -> (r: Option<&'a mut Task>)
    ensures
        id_in_range(*id as int, old(tasks)@.len() as int) ==> {
            &&& r is Some
            &&& *r.unwrap() == old(tasks)@[*id - 1]
            &&& final(tasks)@ == old(tasks)@.update(*id - 1, *final(r.unwrap()))
        },
        !id_in_range(*id as int, old(tasks)@.len() as int) ==> {
            &&& r is None
            &&& final(tasks)@ == old(tasks)@
        },
{
    if index_in_range(id, tasks) {
        let i = offset_index(id);
        Some(&mut tasks[i])
    } else {
        None
    }
}

/// Appends a new `Todo` task described by `description`, created and
/// updated at `now`. Its id is the new length of the collection.
pub fn add_task_at(description: String, now: Timestamp, tasks: &mut Vec<Task>)
    ensures
        final(tasks)@ == added(old(tasks)@, description, now),
{
    let task = Task { description, status: TaskStatus::Todo, created_at: now, updated_at: now };
    tasks.push(task);
}

/// Appends a new `Todo` task described by `description`, stamped with the
/// current time.
pub fn add_task(description: String, tasks: &mut Vec<Task>)
    ensures
        exists|t: Timestamp| final(tasks)@ == #[trigger] added(old(tasks)@, description, t),
{
    let t = now();
    add_task_at(description, t, tasks);
}

/// Replaces the description of task `id` and sets its `updated_at` to
/// `now`. When `id` names no task, reports `NotFound` and changes nothing.
pub fn update_task_at(id: &usize, description: String, now: Timestamp, tasks: &mut Vec<Task>) -> (r:
    Result<(), StoreError>)
    ensures
        r == lookup_result(*id as int, old(tasks)@.len() as int),
        final(tasks)@ == updated(old(tasks)@, *id as int, description, now),
{
    match get_task(id, tasks) {
        Some(task) => {
            task.description = description;
            task.updated_at = now;
            Ok(())
        },
        None => Err(StoreError::NotFound),
    }
}

/// Replaces the description of task `id`, stamped with the current time.
/// When `id` names no task, reports `NotFound` and changes nothing.
pub fn update_task(id: &usize, description: String, tasks: &mut Vec<Task>) -> (r: Result<
    (),
    StoreError,
>)
    ensures
        r == lookup_result(*id as int, old(tasks)@.len() as int),
        exists|t: Timestamp|
            final(tasks)@ == #[trigger] updated(old(tasks)@, *id as int, description, t),
{
    let t = now();
    update_task_at(id, description, t, tasks)
}

/// Removes task `id`; the tasks after it move down by one position. When
/// `id` names no task, reports `NotFound` and changes nothing.
pub fn delete_task(id: &usize, tasks: &mut Vec<Task>) -> (r: Result<(), StoreError>)
    ensures
        r == lookup_result(*id as int, old(tasks)@.len() as int),
        final(tasks)@ == deleted(old(tasks)@, *id as int),
{
    if index_in_range(id, tasks) {
        tasks.remove(offset_index(id));
        Ok(())
    } else {
        Err(StoreError::NotFound)
    }
}

/// Sets the status of task `id` to `status` and its `updated_at` to `now`.
/// When `id` names no task, reports `NotFound` and changes nothing.
pub fn mark_task_at(id: &usize, status: TaskStatus, now: Timestamp, tasks: &mut Vec<Task>) -> (r:
    Result<(), StoreError>)
    ensures
        r == lookup_result(*id as int, old(tasks)@.len() as int),
        final(tasks)@ == marked(old(tasks)@, *id as int, status, now),
{
    match get_task(id, tasks) {
        Some(task) => {
            task.status = status;
            task.updated_at = now;
            Ok(())
        },
        None => Err(StoreError::NotFound),
    }
}

/// Sets the status of task `id` to `status`, stamped with the current time.
/// When `id` names no task, reports `NotFound` and changes nothing.
pub fn mark_task(id: &usize, status: TaskStatus, tasks: &mut Vec<Task>) -> (r: Result<(), StoreError>)
    ensures
        r == lookup_result(*id as int, old(tasks)@.len() as int),
        exists|t: Timestamp| final(tasks)@ == #[trigger] marked(old(tasks)@, *id as int, status, t),
{
    let t = now();
    mark_task_at(id, status, t, tasks)
}

/// The ids of the tasks whose status is `status`, or of all tasks when
/// `status` is `None`, in collection order.
pub fn list_tasks(status: Option<TaskStatus>, tasks: &Vec<Task>) -> (r: Vec<usize>)
    ensures
        r@ == listed_ids(tasks@, status),
{
    let mut ids: Vec<usize> = Vec::new();
    let mut i: usize = 0;
    while i < tasks.len()
        invariant
            i <= tasks@.len(),
            ids@ == listed_ids(tasks@.subrange(0, i as int), status),
        decreases tasks@.len() - i,
    {
        let keep = match status {
            None => true,
            Some(s) => tasks[i].status == s,
        };
        assert(tasks@.subrange(0, i + 1).drop_last() == tasks@.subrange(0, i as int));
        if keep {
            ids.push(i + 1);
        }
        i += 1;
    }
    assert(tasks@.subrange(0, tasks@.len() as int) == tasks@);
    ids
}

} // verus!
