//! Finding the first occurrence of an item in a list.

use vstd::prelude::*;

verus! {

/// `i` is the first position of `item` in `items`.
pub open spec fn first_at<T>(items: Seq<T>, item: T, i: int) -> bool {
    &&& 0 <= i < items.len()
    &&& items[i] == item
    &&& forall|j: int| 0 <= j < i ==> items[j] != item
}

/// The position of the first occurrence of `item` in `items`.
pub open spec fn first_position<T>(items: Seq<T>, item: T) -> int {
    choose|i: int| first_at(items, item, i)
}

/// There is one first occurrence at most.
pub proof fn lemma_first_position<T>(items: Seq<T>, item: T, i: int)
    requires
        first_at(items, item, i),
    ensures
        first_position(items, item) == i,
{
    let j = first_position(items, item);
    assert(first_at(items, item, j));
    if j < i {
        assert(items[j] != item);
    }
    if i < j {
        assert(items[i] != item);
    }
}

/// An item that occurs has a first occurrence.
pub proof fn lemma_first_position_exists<T>(items: Seq<T>, item: T)
    requires
        items.contains(item),
    ensures
        first_at(items, item, first_position(items, item)),
{
    let i = choose|i: int| 0 <= i < items.len() && items[i] == item;
    lemma_first_before(items, item, i);
}

/// Among the positions up to `i` that hold `item` there is a first.
proof fn lemma_first_before<T>(items: Seq<T>, item: T, i: int)
    requires
        0 <= i < items.len(),
        items[i] == item,
    ensures
        exists|k: int| first_at(items, item, k),
    decreases i,
{
    if forall|j: int| 0 <= j < i ==> items[j] != item {
        assert(first_at(items, item, i));
    } else {
        let j = choose|j: int| 0 <= j < i && items[j] == item;
        lemma_first_before(items, item, j);
    }
}

} // verus!
