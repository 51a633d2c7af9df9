//! The list that several workers fill together: each worker has an index of its own and
//! appends it while it alone holds the list.

use vstd::prelude::*;

verus! {

/// Whether `values` holds each member of `indices` exactly once, and nothing else.
pub open spec fn holds_each_once(values: Seq<i32>, indices: Set<i32>) -> bool {
    &&& values.no_duplicates()
    &&& values.to_set() == indices
}

/// The indices of `count` workers: the integers from 0 up to `count`, `count` left out.
pub open spec fn worker_indices(count: int) -> Set<i32> {
    Set::new(|index: i32| 0 <= index < count)
}

/// There are `count` indices below `count`.
proof fn lemma_worker_indices_len(count: int)
    requires
        0 <= count <= i32::MAX,
    ensures
        worker_indices(count).finite(),
        worker_indices(count).len() == count,
    decreases count,
{
    if count == 0 {
        assert(worker_indices(count) =~= Set::<i32>::empty());
    } else {
        lemma_worker_indices_len(count - 1);
        assert(worker_indices(count) =~= worker_indices(count - 1).insert((count - 1) as i32));
    }
}

/// What a worker does while it holds the list: it appends its index.
pub fn record(values: &mut Vec<i32>, index: i32)
    ensures
        final(values)@ == old(values)@.push(index),
{
    values.push(index);
}

/// A list that nobody has appended to holds no index.
pub proof fn lemma_empty_list_holds_none()
    ensures
        holds_each_once(Seq::<i32>::empty(), Set::<i32>::empty()),
{
    assert(Seq::<i32>::empty().to_set() =~= Set::<i32>::empty());
}

/// Each worker adds exactly its own index: where the list holds each of `indices` once,
/// and `index` is not among them, the list after that worker's step holds each of
/// `indices` and `index` once. Whatever the order in which the workers come, the list
/// therefore holds, at every moment, exactly the indices of those that have been, each
/// once.
pub proof fn lemma_record_adds_one(values: Seq<i32>, indices: Set<i32>, index: i32)
    requires
        holds_each_once(values, indices),
        !indices.contains(index),
    ensures
        holds_each_once(values.push(index), indices.insert(index)),
{
    assert(!values.contains(index));
    values.lemma_push_to_set_commute(index);
}

/// Once all of `count` workers have been, the list is full: a list that holds each of
/// their indices once has `count` entries.
pub proof fn lemma_full_list_has_count_entries(values: Seq<i32>, count: int)
    requires
        0 <= count <= i32::MAX,
        holds_each_once(values, worker_indices(count)),
    ensures
        values.len() == count,
{
    values.unique_seq_to_set();
    lemma_worker_indices_len(count);
}

} // verus!
