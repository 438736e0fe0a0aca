//! Ordering a list by a key while equal keys keep their order.

use vstd::prelude::*;

verus! {

/// Where `item` goes in `sorted`: behind the last element that is not
/// larger.
pub open spec fn slot<A>(sorted: Seq<A>, item: A, leq: spec_fn(A, A) -> bool) -> int
    decreases sorted.len(),
{
    if sorted.len() == 0 {
        0
    } else if leq(sorted.last(), item) {
        sorted.len() as int
    } else {
        slot(sorted.drop_last(), item, leq)
    }
}

/// `items` in ascending order; elements of which neither is smaller keep
/// the order in which they stand in `items`.
pub open spec fn arranged<A>(items: Seq<A>, leq: spec_fn(A, A) -> bool) -> Seq<A>
    decreases items.len(),
{
    if items.len() == 0 {
        Seq::empty()
    } else {
        let before = arranged(items.drop_last(), leq);
        before.insert(slot(before, items.last(), leq), items.last())
    }
}

/// No element of `items` is followed by a smaller one.
pub open spec fn ascending<A>(items: Seq<A>, leq: spec_fn(A, A) -> bool) -> bool {
    forall|i: int, j: int| 0 <= i < j < items.len() ==> #[trigger] leq(items[i], items[j])
}

/// Of any two elements one is not larger than the other, and the relation
/// is transitive.
pub open spec fn is_total_order<A>(leq: spec_fn(A, A) -> bool) -> bool {
    &&& forall|a: A, b: A| #[trigger] leq(a, b) || leq(b, a)
    &&& forall|a: A, b: A, c: A| #[trigger] leq(a, b) && #[trigger] leq(b, c) ==> leq(a, c)
}

/// In an ascending list, what stands before the slot of an item is not
/// larger than the item, and the item is not larger than what stands from
/// the slot on.
pub proof fn lemma_slot<A>(sorted: Seq<A>, item: A, leq: spec_fn(A, A) -> bool)
    requires
        is_total_order(leq),
        ascending(sorted, leq),
    ensures
        0 <= slot(sorted, item, leq) <= sorted.len(),
        forall|i: int| 0 <= i < slot(sorted, item, leq) ==> leq(#[trigger] sorted[i], item),
        forall|i: int|
            slot(sorted, item, leq) <= i < sorted.len() ==> leq(item, #[trigger] sorted[i]),
    decreases sorted.len(),
{
    if sorted.len() > 0 {
        let last = sorted.last();
        if leq(last, item) {
            assert forall|i: int| 0 <= i < sorted.len() implies leq(#[trigger] sorted[i], item) by {
                if i < sorted.len() - 1 {
                    assert(leq(sorted[i], sorted[sorted.len() - 1]));
                }
            }
        } else {
            let shorter = sorted.drop_last();
            assert forall|i: int, j: int| 0 <= i < j < shorter.len() implies #[trigger] leq(
                shorter[i],
                shorter[j],
            ) by {
                assert(leq(sorted[i], sorted[j]));
            }
            lemma_slot(shorter, item, leq);
            assert(leq(last, item) || leq(item, last));
            assert forall|i: int| 0 <= i < slot(sorted, item, leq) implies leq(
                #[trigger] sorted[i],
                item,
            ) by {
                assert(sorted[i] == shorter[i]);
            }
            assert forall|i: int| slot(sorted, item, leq) <= i < sorted.len() implies leq(
                item,
                #[trigger] sorted[i],
            ) by {
                if i < shorter.len() {
                    assert(sorted[i] == shorter[i]);
                }
            }
        }
    }
}

/// Arranging gives an ascending list that holds every element as often as
/// the given list does.
pub proof fn lemma_arranged<A>(items: Seq<A>, leq: spec_fn(A, A) -> bool)
    requires
        is_total_order(leq),
    ensures
        ascending(arranged(items, leq), leq),
        arranged(items, leq).len() == items.len(),
        arranged(items, leq).to_multiset() == items.to_multiset(),
    decreases items.len(),
{
    broadcast use vstd::seq_lib::group_to_multiset_ensures;

    if items.len() > 0 {
        let last = items.last();
        let before = arranged(items.drop_last(), leq);
        lemma_arranged(items.drop_last(), leq);
        lemma_slot(before, last, leq);
        let at = slot(before, last, leq);
        let after = before.insert(at, last);
        assert forall|i: int, j: int| 0 <= i < j < after.len() implies #[trigger] leq(
            after[i],
            after[j],
        ) by {
            if j < at {
                assert(after[i] == before[i] && after[j] == before[j]);
                assert(leq(before[i], before[j]));
            } else if j == at {
                assert(after[i] == before[i]);
            } else if i < at {
                assert(after[i] == before[i] && after[j] == before[j - 1]);
                if i < j - 1 {
                    assert(leq(before[i], before[j - 1]));
                } else {
                    assert(leq(before[i], last) && leq(last, before[j - 1]));
                }
            } else if i == at {
                assert(after[j] == before[j - 1]);
            } else {
                assert(after[i] == before[i - 1] && after[j] == before[j - 1]);
                assert(leq(before[i - 1], before[j - 1]));
            }
        }
        vstd::seq_lib::to_multiset_insert(before, at, last);
        assert(items =~= items.drop_last().push(last));
        assert(items.to_multiset() =~= items.drop_last().to_multiset().insert(last));
    }
}

} // verus!
