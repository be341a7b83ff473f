//! Finding the first of a list that equals a given value.

use vstd::prelude::*;

verus! {

/// The index of the first of `items` that equals `x`, or -1.
pub open spec fn position<A>(items: Seq<A>, x: A) -> int
    decreases items.len(),
{
    if items.len() == 0 {
        -1
    } else {
        let p = position(items.drop_last(), x);
        if p >= 0 {
            p
        } else if items.last() == x {
            items.len() - 1
        } else {
            -1
        }
    }
}

/// What `position` gives: the first index that holds `x`, or -1 where no
/// index does.
pub proof fn lemma_position<A>(items: Seq<A>, x: A)
    ensures
        -1 <= position(items, x) < items.len(),
        position(items, x) >= 0 ==> items[position(items, x)] == x,
        forall|j: int| 0 <= j < items.len() && items[j] == x ==> 0 <= position(items, x) <= j,
    decreases items.len(),
{
    if items.len() > 0 {
        lemma_position(items.drop_last(), x);
        let p = position(items.drop_last(), x);
        assert forall|j: int| 0 <= j < items.len() && items[j] == x implies 0 <= position(items, x)
            <= j by {
            if j < items.len() - 1 {
                assert(items.drop_last()[j] == x);
            }
        }
        if p >= 0 {
            assert(items.drop_last()[p] == items[p]);
        }
    }
}

/// The first index that holds `x` is its position.
pub proof fn lemma_position_is<A>(items: Seq<A>, x: A, i: int)
    requires
        0 <= i < items.len(),
        items[i] == x,
        forall|j: int| 0 <= j < i ==> items[j] != x,
    ensures
        position(items, x) == i,
{
    lemma_position(items, x);
}

/// A value is among `items` exactly when it has a position there.
pub proof fn lemma_position_contains<A>(items: Seq<A>, x: A)
    ensures
        position(items, x) >= 0 <==> items.contains(x),
{
    lemma_position(items, x);
    if items.contains(x) {
        let j = choose|j: int| 0 <= j < items.len() && items[j] == x;
        assert(items[j] == x);
    }
    if position(items, x) >= 0 {
        assert(items[position(items, x)] == x);
    }
}

} // verus!
