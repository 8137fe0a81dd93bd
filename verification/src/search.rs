//! Looking for the first item of a sequence with a given property.

use vstd::prelude::*;

verus! {

/// The least index from `start` on at which an item of `items` is `wanted`.
pub open spec fn first_from<T>(items: Seq<T>, wanted: spec_fn(T) -> bool, start: int) -> Option<int>
    decreases items.len() - start,
{
    if start < 0 || start >= items.len() {
        None
    } else if wanted(items[start]) {
        Some(start)
    } else {
        first_from(items, wanted, start + 1)
    }
}

/// The least index at which an item of `items` is `wanted`.
pub open spec fn first<T>(items: Seq<T>, wanted: spec_fn(T) -> bool) -> Option<int> {
    first_from(items, wanted, 0)
}

/// `first_from` finds an index not before `start` that holds a wanted item
/// and has no wanted item between `start` and itself; it finds none only
/// where no item from `start` on is wanted.
pub proof fn lemma_first_from<T>(items: Seq<T>, wanted: spec_fn(T) -> bool, start: int)
    requires
        0 <= start,
    ensures
        match first_from(items, wanted, start) {
            Some(i) => {
                &&& start <= i < items.len()
                &&& wanted(items[i])
                &&& forall|j: int| start <= j < i ==> !wanted(#[trigger] items[j])
            },
            None => forall|j: int| start <= j < items.len() ==> !wanted(#[trigger] items[j]),
        },
    decreases items.len() - start,
{
    if start < items.len() && !wanted(items[start]) {
        lemma_first_from(items, wanted, start + 1);
    }
}

/// The first wanted item is the least one, and there is none only where no
/// item is wanted.
pub proof fn lemma_first<T>(items: Seq<T>, wanted: spec_fn(T) -> bool)
    ensures
        match first(items, wanted) {
            Some(i) => {
                &&& 0 <= i < items.len()
                &&& wanted(items[i])
                &&& forall|j: int| 0 <= j < i ==> !wanted(#[trigger] items[j])
            },
            None => forall|j: int| 0 <= j < items.len() ==> !wanted(#[trigger] items[j]),
        },
{
    lemma_first_from(items, wanted, 0);
}

} // verus!
