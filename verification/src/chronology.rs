//! The order in which the audit items of a conversation are shown.
//!
//! Items are shown by ascending time of creation. Items made at the same
//! time are shown requests first, by ascending `inc`; the others follow in
//! the order in which they were stored.

use vstd::prelude::*;
use crate::audit::{item_views, AuditItem, AuditItemView};

verus! {

/// The place of an item among those made at the same time: a request stands
/// at its `inc`, every other item behind all requests.
pub open spec fn rank(item: AuditItemView) -> int {
    match item {
        AuditItemView::Request { inc, .. } => inc as int,
        _ => 0x8000_0000,
    }
}

/// `a` may be shown before `b`.
pub open spec fn precedes(a: AuditItemView, b: AuditItemView) -> bool {
    a.created_at().spec_lt(b.created_at()) || (a.created_at() == b.created_at() && rank(a)
        <= rank(b))
}

/// Every item of the list may be shown before every later one.
pub open spec fn ordered(items: Seq<AuditItemView>) -> bool {
    forall|i: int, j: int| 0 <= i < j < items.len() ==> precedes(items[i], items[j])
}

/// The index of the first item of `shown` that `x` may be shown before, or
/// the length of `shown` where there is none.
pub open spec fn insertion_point(shown: Seq<AuditItemView>, x: AuditItemView) -> int
    decreases shown.len(),
{
    if shown.len() == 0 {
        0
    } else if precedes(x, shown.first()) {
        0
    } else {
        1 + insertion_point(shown.drop_first(), x)
    }
}

/// The items in the order in which they are shown: each item, from the last
/// to the first, is put before the first item that it may be shown before.
/// Items that may be shown either way round keep their order.
pub open spec fn chronological(items: Seq<AuditItemView>) -> Seq<AuditItemView>
    decreases items.len(),
{
    if items.len() == 0 {
        Seq::empty()
    } else {
        let rest = chronological(items.drop_first());
        rest.insert(insertion_point(rest, items.first()), items.first())
    }
}

/// Of two items, one may be shown before the other.
pub proof fn lemma_precedes_total(a: AuditItemView, b: AuditItemView)
    ensures
        precedes(a, b) || precedes(b, a),
{
}

/// The order is transitive.
pub proof fn lemma_precedes_transitive(a: AuditItemView, b: AuditItemView, c: AuditItemView)
    requires
        precedes(a, b),
        precedes(b, c),
    ensures
        precedes(a, c),
{
}

/// What the insertion point is: `x` may be shown before the item there, and
/// before none of the items in front of it.
pub proof fn lemma_insertion_point(shown: Seq<AuditItemView>, x: AuditItemView)
    ensures
        0 <= insertion_point(shown, x) <= shown.len(),
        forall|j: int| 0 <= j < insertion_point(shown, x) ==> !precedes(x, #[trigger] shown[j]),
        insertion_point(shown, x) < shown.len() ==> precedes(
            x,
            shown[insertion_point(shown, x)],
        ),
    decreases shown.len(),
{
    if shown.len() > 0 && !precedes(x, shown.first()) {
        let tail = shown.drop_first();
        lemma_insertion_point(tail, x);
        let p = insertion_point(tail, x);
        assert forall|j: int| 0 <= j < p + 1 implies !precedes(x, #[trigger] shown[j]) by {
            if j > 0 {
                assert(shown[j] == tail[j - 1]);
            }
        }
        if p + 1 < shown.len() {
            assert(shown[p + 1] == tail[p]);
        }
    }
}

/// An index with the two properties of the insertion point is the insertion
/// point.
pub proof fn lemma_insertion_point_is(shown: Seq<AuditItemView>, x: AuditItemView, i: int)
    requires
        0 <= i <= shown.len(),
        forall|j: int| 0 <= j < i ==> !precedes(x, #[trigger] shown[j]),
        i < shown.len() ==> precedes(x, shown[i]),
    ensures
        insertion_point(shown, x) == i,
    decreases shown.len(),
{
    if shown.len() > 0 {
        if i == 0 {
        } else {
            assert(!precedes(x, shown[0]));
            let tail = shown.drop_first();
            assert forall|j: int| 0 <= j < i - 1 implies !precedes(x, #[trigger] tail[j]) by {
                assert(tail[j] == shown[j + 1]);
            }
            if i - 1 < tail.len() {
                assert(tail[i - 1] == shown[i]);
            }
            lemma_insertion_point_is(tail, x, i - 1);
        }
    }
}

/// The shown order is ordered: of two items made at different times the
/// earlier comes first, and of two requests made at the same time the one
/// with the smaller `inc`.
pub proof fn lemma_chronological_ordered(items: Seq<AuditItemView>)
    ensures
        ordered(chronological(items)),
    decreases items.len(),
{
    if items.len() > 0 {
        let rest = chronological(items.drop_first());
        let x = items.first();
        lemma_chronological_ordered(items.drop_first());
        lemma_insertion_point(rest, x);
        let p = insertion_point(rest, x);
        let shown = rest.insert(p, x);
        assert forall|i: int, j: int| 0 <= i < j < shown.len() implies precedes(
            shown[i],
            shown[j],
        ) by {
            if j < p {
                assert(shown[i] == rest[i] && shown[j] == rest[j]);
            } else if j == p {
                assert(shown[i] == rest[i]);
                lemma_precedes_total(x, rest[i]);
            } else if i < p {
                assert(shown[i] == rest[i] && shown[j] == rest[j - 1]);
            } else if i == p {
                assert(shown[j] == rest[j - 1]);
                if j - 1 > p {
                    lemma_precedes_transitive(x, rest[p], rest[j - 1]);
                }
            } else {
                assert(shown[i] == rest[i - 1] && shown[j] == rest[j - 1]);
            }
        }
    }
}

/// The shown order holds the same items, each as often as the list given.
pub proof fn lemma_chronological_permutation(items: Seq<AuditItemView>)
    ensures
        chronological(items).to_multiset() == items.to_multiset(),
        chronological(items).len() == items.len(),
    decreases items.len(),
{
    broadcast use vstd::seq_lib::group_to_multiset_ensures;

    if items.len() > 0 {
        let tail = items.drop_first();
        let rest = chronological(tail);
        let x = items.first();
        lemma_chronological_permutation(tail);
        lemma_insertion_point(rest, x);
        let p = insertion_point(rest, x);
        vstd::seq_lib::to_multiset_insert(rest, p, x);
        vstd::seq_lib::to_multiset_insert(tail, 0, x);
        assert(tail.insert(0, x) =~= items);
    } else {
        assert(chronological(items) =~= items);
    }
}

impl AuditItem {
    /// The place of the item among those made at the same time.
    fn rank(&self) -> (r: i64)
        ensures
            r == rank(self@),
    {
        match self {
            AuditItem::Request { inc, .. } => *inc as i64,
            _ => 0x8000_0000,
        }
    }

    /// True when this item may be shown before the other.
    pub fn precedes(&self, other: &AuditItem) -> (r: bool)
        ensures
            r == precedes(self@, other@),
    {
        let a = self.created_at();
        let b = other.created_at();
        a.lt(&b) || (a.nanos == b.nanos && self.rank() <= other.rank())
    }
}

/// Puts audit items in the order in which they are shown.
pub fn sort_audit_items(items: Vec<AuditItem>) -> (sorted: Vec<AuditItem>)
    ensures
        item_views(sorted@) == chronological(item_views(items@)),
{
    let ghost all = item_views(items@);
    let mut rest = items;
    let mut sorted: Vec<AuditItem> = Vec::new();
    proof {
        assert(all.skip(all.len() as int) =~= Seq::<AuditItemView>::empty());
    }
    while rest.len() > 0
        invariant
            rest@.len() <= all.len(),
            item_views(rest@) == all.take(rest@.len() as int),
            item_views(sorted@) == chronological(all.skip(rest@.len() as int)),
        decreases rest@.len(),
    {
        let ghost before = rest@;
        let ghost shown = item_views(sorted@);
        let x = rest.pop().unwrap();
        let ghost k = rest@.len() as int;
        proof {
            assert(item_views(before)[k] == x@);
            assert(all.take(k + 1)[k] == all[k]);
            assert(all.skip(k).drop_first() =~= all.skip(k + 1));
            assert(all.skip(k).first() == x@);
            assert(item_views(rest@) =~= all.take(k));
        }
        let mut i: usize = 0;
        while i < sorted.len() && !x.precedes(&sorted[i])
            invariant
                i <= sorted@.len(),
                shown == item_views(sorted@),
                forall|j: int| 0 <= j < i ==> !precedes(x@, #[trigger] shown[j]),
            decreases sorted@.len() - i,
        {
            i += 1;
        }
        proof {
            lemma_insertion_point_is(shown, x@, i as int);
            assert(item_views(sorted@.insert(i as int, x)) =~= shown.insert(i as int, x@));
        }
        sorted.insert(i, x);
    }
    proof {
        assert(all.skip(0) =~= all);
    }
    sorted
}

} // verus!
