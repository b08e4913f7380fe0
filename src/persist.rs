use vstd::prelude::*;
use crate::task::Task;

verus! {

/// The collection to start from, given what reading and parsing the storage
/// file gave: its tasks, or `None` when the file is missing or does not
/// parse. A missing or corrupt file is no failure: it starts an empty
/// collection.
pub fn recover_tasks(loaded: Option<Vec<Task>>) -> (r: Vec<Task>)
    ensures
        r@ == match loaded {
            Some(v) => v@,
            None => Seq::<Task>::empty(),
        },
{
    match loaded {
        Some(v) => v,
        None => Vec::new(),
    }
}

} // verus!
