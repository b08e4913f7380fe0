use vstd::prelude::*;
use crate::task::{Task, TaskStatus, Timestamp, StoreError, id_in_range};
use crate::store::{
    new_task, added, updated, deleted, marked, status_matches, listed_ids, lookup_result,
};

verus! {

/// The collection after adding, in order, a task for each of
/// `descriptions`, the k-th one at `times[k]`.
pub open spec fn added_all(tasks: Seq<Task>, descriptions: Seq<String>, times: Seq<Timestamp>) -> Seq<
    Task,
>
    decreases descriptions.len(),
{
    if descriptions.len() == 0 {
        tasks
    } else {
        let n = descriptions.len() - 1;
        added(added_all(tasks, descriptions.subrange(0, n), times), descriptions[n], times[n])
    }
}

/// Adding tasks one after another gives them the ids that follow the
/// collection's length, in the order they were added: starting from an
/// empty collection, the task with id `k` is the `k`-th one added, a new
/// `Todo` task, and the ids are exactly `1..=n`.
pub proof fn lemma_adds_number_in_order(
    tasks: Seq<Task>,
    descriptions: Seq<String>,
    times: Seq<Timestamp>,
)
    requires
        descriptions.len() == times.len(),
    ensures
        added_all(tasks, descriptions, times).len() == tasks.len() + descriptions.len(),
        added_all(tasks, descriptions, times).subrange(0, tasks.len() as int) == tasks,
        forall|k: int|
            0 <= k < descriptions.len() ==> #[trigger] added_all(tasks, descriptions, times)[tasks.len()
                + k] == new_task(descriptions[k], times[k]),
    decreases descriptions.len(),
{
    if descriptions.len() > 0 {
        let n = descriptions.len() - 1;
        let ds = descriptions.subrange(0, n);
        let ts = times.subrange(0, n);
        lemma_adds_number_in_order(tasks, ds, ts);
        lemma_added_all_ignores_later_times(tasks, ds, times, ts);
        let before = added_all(tasks, ds, times);
        assert(added_all(tasks, descriptions, times) == before.push(
            new_task(descriptions[n], times[n]),
        ));
        assert(before.push(new_task(descriptions[n], times[n])).subrange(0, tasks.len() as int)
            == before.subrange(0, tasks.len() as int));
        assert forall|k: int| 0 <= k < descriptions.len() implies #[trigger] added_all(
            tasks,
            descriptions,
            times,
        )[tasks.len() + k] == new_task(descriptions[k], times[k]) by {
            if k < n {
                assert(ds[k] == descriptions[k]);
                assert(ts[k] == times[k]);
                assert(added_all(tasks, ds, ts)[tasks.len() + k] == new_task(ds[k], ts[k]));
            }
        }
    }
}

/// Only the first `descriptions.len()` times take part in `added_all`.
proof fn lemma_added_all_ignores_later_times(
    tasks: Seq<Task>,
    descriptions: Seq<String>,
    times: Seq<Timestamp>,
    prefix: Seq<Timestamp>,
)
    requires
        descriptions.len() <= prefix.len() <= times.len(),
        prefix == times.subrange(0, prefix.len() as int),
    ensures
        added_all(tasks, descriptions, times) == added_all(tasks, descriptions, prefix),
    decreases descriptions.len(),
{
    if descriptions.len() > 0 {
        let n = descriptions.len() - 1;
        lemma_added_all_ignores_later_times(tasks, descriptions.subrange(0, n), times, prefix);
        assert(prefix[n] == times[n]);
    }
}

/// An update, delete or status change of an id outside `1..=len` leaves the
/// collection as it was and reports `NotFound`.
pub proof fn lemma_out_of_range_changes_nothing(
    tasks: Seq<Task>,
    id: int,
    description: String,
    status: TaskStatus,
    now: Timestamp,
)
    requires
        id == 0 || id > tasks.len(),
    ensures
        lookup_result(id, tasks.len() as int) == Err::<(), StoreError>(StoreError::NotFound),
        updated(tasks, id, description, now) == tasks,
        deleted(tasks, id) == tasks,
        marked(tasks, id, status, now) == tasks,
{
}

/// Marking a task done twice leaves the collection as marking it once at
/// the later time does; against marking it once at the earlier time, only
/// `updated_at` may differ.
pub proof fn lemma_mark_done_idempotent(
    tasks: Seq<Task>,
    id: int,
    first: Timestamp,
    second: Timestamp,
)
    ensures
        marked(marked(tasks, id, TaskStatus::Done, first), id, TaskStatus::Done, second) == marked(
            tasks,
            id,
            TaskStatus::Done,
            second,
        ),
        ({
            let once = marked(tasks, id, TaskStatus::Done, first);
            let twice = marked(once, id, TaskStatus::Done, second);
            &&& twice.len() == once.len()
            &&& forall|i: int|
                0 <= i < once.len() ==> {
                    &&& #[trigger] twice[i].status == once[i].status
                    &&& twice[i].description == once[i].description
                    &&& twice[i].created_at == once[i].created_at
                }
        }),
        id_in_range(id, tasks.len() as int) ==> marked(
            marked(tasks, id, TaskStatus::Done, first),
            id,
            TaskStatus::Done,
            second,
        )[id - 1].status == TaskStatus::Done,
{
    let once = marked(tasks, id, TaskStatus::Done, first);
    assert(marked(once, id, TaskStatus::Done, second) =~= marked(
        tasks,
        id,
        TaskStatus::Done,
        second,
    ));
}

/// Listing with a filter gives the ids of exactly the tasks whose status
/// matches, each once and in collection order; listing with no filter
/// gives every id, `1..=len`, in order.
pub proof fn lemma_list_selects_in_order(tasks: Seq<Task>, filter: Option<TaskStatus>)
    requires
        tasks.len() <= usize::MAX,
    ensures
        forall|k: int|
            0 <= k < listed_ids(tasks, filter).len() ==> {
                let id = #[trigger] listed_ids(tasks, filter)[k] as int;
                id_in_range(id, tasks.len() as int) && status_matches(tasks[id - 1], filter)
            },
        forall|j: int, k: int|
            0 <= j < k < listed_ids(tasks, filter).len() ==> #[trigger] listed_ids(tasks, filter)[j]
                < #[trigger] listed_ids(tasks, filter)[k],
        forall|id: int|
            id_in_range(id, tasks.len() as int) && status_matches(#[trigger] tasks[id - 1], filter)
                ==> listed_ids(tasks, filter).contains(id as usize),
        filter is None ==> listed_ids(tasks, filter) == Seq::new(
            tasks.len(),
            |i: int| (i + 1) as usize,
        ),
    decreases tasks.len(),
{
    if tasks.len() > 0 {
        let rest = tasks.drop_last();
        lemma_list_selects_in_order(rest, filter);
        let before = listed_ids(rest, filter);
        let ids = listed_ids(tasks, filter);
        assert forall|k: int| 0 <= k < before.len() implies (before[k] as int) < tasks.len() by {
            let id = before[k] as int;
            assert(id_in_range(id, rest.len() as int));
        }
        assert forall|id: int|
            id_in_range(id, tasks.len() as int) && status_matches(
                #[trigger] tasks[id - 1],
                filter,
            ) implies ids.contains(id as usize) by {
            if id < tasks.len() {
                assert(rest[id - 1] == tasks[id - 1]);
                let k = choose|k: int| 0 <= k < before.len() && before[k] == id as usize;
                assert(ids[k] == id as usize);
            } else {
                assert(ids[ids.len() - 1] == id as usize);
            }
        }
        assert forall|k: int| 0 <= k < ids.len() implies {
            let id = #[trigger] ids[k] as int;
            id_in_range(id, tasks.len() as int) && status_matches(tasks[id - 1], filter)
        } by {
            if k < before.len() {
                let id = before[k] as int;
                assert(status_matches(rest[id - 1], filter));
                assert(rest[id - 1] == tasks[id - 1]);
            }
        }
        if filter is None {
            assert(ids =~= Seq::new(tasks.len(), |i: int| (i + 1) as usize));
        }
    }
}

} // verus!
