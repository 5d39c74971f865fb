//! Which catalog items are announced and which are bought, and in what
//! order: the scarcest first.

use crate::catalog::CatalogItem;
use std::collections::BTreeSet;
use vstd::prelude::*;

verus! {

broadcast use vstd::std_specs::btree::group_btree_axioms;

/// An item is worth announcing when it is bounded (or unbounded items are
/// asked for too), not sold out, and was never selected for purchase.
pub open spec fn eligible(item: CatalogItem, include_unlimited: bool, seen: Set<i64>) -> bool {
    &&& include_unlimited || item.limited
    &&& !item.sold_out
    &&& !seen.contains(item.id)
}

/// The eligible items of a catalog, in catalog order.
pub open spec fn notification_set(
    items: Seq<CatalogItem>,
    include_unlimited: bool,
    seen: Set<i64>,
) -> Seq<CatalogItem>
    decreases items.len(),
{
    if items.len() == 0 {
        Seq::empty()
    } else {
        let before = notification_set(items.drop_last(), include_unlimited, seen);
        if eligible(items.last(), include_unlimited, seen) {
            before.push(items.last())
        } else {
            before
        }
    }
}

/// An item is scarce enough to buy when its total supply is known and does
/// not exceed the ceiling.
pub open spec fn within_supply(item: CatalogItem, max_supply: i32) -> bool {
    match item.total_supply {
        Some(supply) => supply <= max_supply,
        None => false,
    }
}

/// The items that are scarce enough, in their order.
pub open spec fn scarce_items(items: Seq<CatalogItem>, max_supply: i32) -> Seq<CatalogItem>
    decreases items.len(),
{
    if items.len() == 0 {
        Seq::empty()
    } else {
        let before = scarce_items(items.drop_last(), max_supply);
        if within_supply(items.last(), max_supply) {
            before.push(items.last())
        } else {
            before
        }
    }
}

/// The number an item is ordered by: its total supply, with an unknown
/// supply below every known one.
pub open spec fn supply_rank(item: CatalogItem) -> int {
    match item.total_supply {
        Some(supply) => supply as int,
        None => i32::MIN as int - 1,
    }
}

/// No item stands before one of lower rank.
pub open spec fn sorted_by_supply(items: Seq<CatalogItem>) -> bool {
    forall|i: int, j: int|
        0 <= i < j < items.len() ==> supply_rank(#[trigger] items[i]) <= supply_rank(
            #[trigger] items[j],
        )
}

/// Where `item` goes in `sorted`: behind the last item whose rank is not
/// above its own.
pub open spec fn insertion_point(sorted: Seq<CatalogItem>, item: CatalogItem) -> int
    decreases sorted.len(),
{
    if sorted.len() == 0 {
        0
    } else if supply_rank(sorted.last()) <= supply_rank(item) {
        sorted.len() as int
    } else {
        insertion_point(sorted.drop_last(), item)
    }
}

/// The items in ascending order of rank; items of equal rank keep the order
/// they came in.
pub open spec fn by_supply(items: Seq<CatalogItem>) -> Seq<CatalogItem>
    decreases items.len(),
{
    if items.len() == 0 {
        Seq::empty()
    } else {
        let before = by_supply(items.drop_last());
        before.insert(insertion_point(before, items.last()), items.last())
    }
}

/// The items of one rank, in their order.
pub open spec fn of_rank(items: Seq<CatalogItem>, rank: int) -> Seq<CatalogItem>
    decreases items.len(),
{
    if items.len() == 0 {
        Seq::empty()
    } else if supply_rank(items.last()) == rank {
        of_rank(items.drop_last(), rank).push(items.last())
    } else {
        of_rank(items.drop_last(), rank)
    }
}

/// The items to buy out of those announced: the scarce ones, scarcest first.
pub open spec fn purchase_set(announced: Seq<CatalogItem>, max_supply: i32) -> Seq<CatalogItem> {
    by_supply(scarce_items(announced, max_supply))
}

/// The identifiers that occur among `items`.
pub open spec fn ids_in(items: Seq<CatalogItem>) -> Set<i64> {
    Set::new(|id: i64| exists|i: int| 0 <= i < items.len() && (#[trigger] items[i]).id == id)
}

/// The insertion point lies within the sequence, everything from it on
/// ranks above the item, and what stands just before it does not.
pub proof fn lemma_insertion_point(sorted: Seq<CatalogItem>, item: CatalogItem)
    ensures
        0 <= insertion_point(sorted, item) <= sorted.len(),
        forall|j: int|
            insertion_point(sorted, item) <= j < sorted.len() ==> supply_rank(
                #[trigger] sorted[j],
            ) > supply_rank(item),
        insertion_point(sorted, item) > 0 ==> supply_rank(
            sorted[insertion_point(sorted, item) - 1],
        ) <= supply_rank(item),
    decreases sorted.len(),
{
    if sorted.len() > 0 && supply_rank(sorted.last()) > supply_rank(item) {
        let shorter = sorted.drop_last();
        lemma_insertion_point(shorter, item);
        assert forall|j: int| insertion_point(sorted, item) <= j < sorted.len() implies supply_rank(
            #[trigger] sorted[j],
        ) > supply_rank(item) by {
            if j < shorter.len() {
                assert(sorted[j] == shorter[j]);
            }
        }
        if insertion_point(sorted, item) > 0 {
            assert(sorted[insertion_point(sorted, item) - 1] == shorter[insertion_point(
                shorter,
                item,
            ) - 1]);
        }
    }
}

/// Inserting at the insertion point keeps a sorted sequence sorted and adds
/// exactly the one item.
pub proof fn lemma_insert_sorted(sorted: Seq<CatalogItem>, item: CatalogItem)
    requires
        sorted_by_supply(sorted),
    ensures
        sorted_by_supply(sorted.insert(insertion_point(sorted, item), item)),
        sorted.insert(insertion_point(sorted, item), item).to_multiset()
            == sorted.to_multiset().insert(item),
{
    broadcast use vstd::seq_lib::group_to_multiset_ensures;

    lemma_insertion_point(sorted, item);
    let k = insertion_point(sorted, item);
    let grown = sorted.insert(k, item);
    assert forall|i: int, j: int| 0 <= i < j < grown.len() implies supply_rank(
        #[trigger] grown[i],
    ) <= supply_rank(#[trigger] grown[j]) by {
        if j < k {
            assert(grown[i] == sorted[i] && grown[j] == sorted[j]);
        } else if j == k {
            assert(grown[i] == sorted[i]);
            if i < k - 1 {
                assert(supply_rank(sorted[i]) <= supply_rank(sorted[k - 1]));
            }
        } else if i < k {
            assert(grown[i] == sorted[i] && grown[j] == sorted[j - 1]);
            if i < j - 1 {
                assert(supply_rank(sorted[i]) <= supply_rank(sorted[j - 1]));
            }
        } else if i == k {
            assert(grown[j] == sorted[j - 1]);
        } else {
            assert(grown[i] == sorted[i - 1] && grown[j] == sorted[j - 1]);
        }
    }
    assert(grown.remove(k) =~= sorted);
    assert(grown.remove(k).to_multiset() =~= grown.to_multiset().remove(grown[k]));
    assert(grown.to_multiset().count(item) > 0) by {
        assert(grown[k] == item);
        assert(grown.contains(item));
    }
    assert(grown.to_multiset() =~= sorted.to_multiset().insert(item));
}

/// Ordering by supply yields a sorted rearrangement of the items: nothing is
/// lost, nothing added, nothing doubled.
pub proof fn lemma_by_supply(items: Seq<CatalogItem>)
    ensures
        sorted_by_supply(by_supply(items)),
        by_supply(items).to_multiset() == items.to_multiset(),
        by_supply(items).len() == items.len(),
    decreases items.len(),
{
    broadcast use vstd::seq_lib::group_to_multiset_ensures;

    if items.len() == 0 {
        assert(by_supply(items).to_multiset() =~= items.to_multiset());
    } else {
        let before = by_supply(items.drop_last());
        lemma_by_supply(items.drop_last());
        lemma_insert_sorted(before, items.last());
        lemma_insertion_point(before, items.last());
        assert(items.drop_last().push(items.last()) =~= items);
        assert(items.drop_last().push(items.last()).to_multiset()
            =~= items.drop_last().to_multiset().insert(items.last()));
    }
}

/// The items of one rank in two sequences put together are those of the
/// first followed by those of the second.
pub proof fn lemma_of_rank_joined(a: Seq<CatalogItem>, b: Seq<CatalogItem>, rank: int)
    ensures
        of_rank(a + b, rank) == of_rank(a, rank) + of_rank(b, rank),
    decreases b.len(),
{
    if b.len() == 0 {
        assert(a + b =~= a);
        assert(of_rank(a, rank) + of_rank(b, rank) =~= of_rank(a, rank));
    } else {
        lemma_of_rank_joined(a, b.drop_last(), rank);
        assert((a + b).drop_last() =~= a + b.drop_last());
        assert((a + b).last() == b.last());
        if supply_rank(b.last()) == rank {
            assert((of_rank(a, rank) + of_rank(b.drop_last(), rank)).push(b.last()) =~= of_rank(
                a,
                rank,
            ) + of_rank(b.drop_last(), rank).push(b.last()));
        }
    }
}

/// Where no item has the rank, none is found.
pub proof fn lemma_of_rank_absent(items: Seq<CatalogItem>, rank: int)
    requires
        forall|i: int| 0 <= i < items.len() ==> supply_rank(#[trigger] items[i]) != rank,
    ensures
        of_rank(items, rank).len() == 0,
    decreases items.len(),
{
    if items.len() > 0 {
        let shorter = items.drop_last();
        assert forall|i: int| 0 <= i < shorter.len() implies supply_rank(#[trigger] shorter[i])
            != rank by {
            assert(shorter[i] == items[i]);
        }
        lemma_of_rank_absent(shorter, rank);
        assert(supply_rank(items[items.len() - 1]) != rank);
    }
}

/// Ordering by supply is stable: the items of each rank come out in the
/// order in which they came in.
pub proof fn lemma_by_supply_stable(items: Seq<CatalogItem>, rank: int)
    ensures
        of_rank(by_supply(items), rank) == of_rank(items, rank),
    decreases items.len(),
{
    if items.len() > 0 {
        let item = items.last();
        let before = by_supply(items.drop_last());
        let k = insertion_point(before, item);
        lemma_by_supply_stable(items.drop_last(), rank);
        lemma_insertion_point(before, item);
        let head = before.take(k);
        let tail = before.skip(k);
        assert(before =~= head + tail);
        assert(before.insert(k, item) =~= (head + seq![item]) + tail);
        lemma_of_rank_joined(head, tail, rank);
        lemma_of_rank_joined(head + seq![item], tail, rank);
        lemma_of_rank_joined(head, seq![item], rank);
        let single = seq![item];
        assert(single.drop_last() =~= Seq::<CatalogItem>::empty());
        assert(single.last() == item);
        assert(of_rank(single.drop_last(), rank) =~= Seq::<CatalogItem>::empty());
        if supply_rank(item) == rank {
            assert forall|i: int| 0 <= i < tail.len() implies supply_rank(#[trigger] tail[i])
                != rank by {
                assert(tail[i] == before[k + i]);
            }
            lemma_of_rank_absent(tail, rank);
            assert(of_rank(single, rank) =~= single);
            assert(of_rank(by_supply(items), rank) =~= of_rank(items, rank));
        } else {
            assert(of_rank(single, rank) =~= Seq::<CatalogItem>::empty());
            assert(of_rank(by_supply(items), rank) =~= of_rank(items, rank));
        }
    }
}

/// Tells whether an item may be announced.
pub fn is_eligible(item: &CatalogItem, include_unlimited: bool, seen: &BTreeSet<i64>) -> (yes: bool)
    ensures
        yes == eligible(*item, include_unlimited, seen@),
{
    (include_unlimited || item.limited) && !item.sold_out && !seen.contains(&item.id)
}

/// Keeps the items that may be announced.
pub fn select_notifications(
    items: &Vec<CatalogItem>,
    include_unlimited: bool,
    seen: &BTreeSet<i64>,
) -> (announced: Vec<CatalogItem>)
    ensures
        announced@ == notification_set(items@, include_unlimited, seen@),
{
    let mut announced: Vec<CatalogItem> = Vec::new();
    let mut i: usize = 0;
    while i < items.len()
        invariant
            i <= items.len(),
            announced@ == notification_set(items@.take(i as int), include_unlimited, seen@),
        decreases items.len() - i,
    {
        proof {
            assert(items@.take(i as int + 1).drop_last() =~= items@.take(i as int));
        }
        if is_eligible(&items[i], include_unlimited, seen) {
            announced.push(items[i]);
        }
        i = i + 1;
    }
    proof {
        assert(items@.take(i as int) =~= items@);
    }
    announced
}

/// Tells whether `a` ranks above `b` by supply.
fn ranks_above(a: &CatalogItem, b: &CatalogItem) -> (above: bool)
    ensures
        above == (supply_rank(*a) > supply_rank(*b)),
{
    match (a.total_supply, b.total_supply) {
        (Some(x), Some(y)) => x > y,
        (Some(_), None) => true,
        (None, _) => false,
    }
}

/// Orders items by supply, scarcest first; items of equal supply keep their
/// order.
pub fn sort_by_supply(items: &Vec<CatalogItem>) -> (sorted: Vec<CatalogItem>)
    ensures
        sorted@ == by_supply(items@),
        sorted_by_supply(sorted@),
        sorted@.to_multiset() == items@.to_multiset(),
        forall|rank: int| #[trigger] of_rank(sorted@, rank) == of_rank(items@, rank),
{
    let mut sorted: Vec<CatalogItem> = Vec::new();
    let mut i: usize = 0;
    while i < items.len()
        invariant
            i <= items.len(),
            sorted@ == by_supply(items@.take(i as int)),
            sorted@.len() == i,
        decreases items.len() - i,
    {
        let item: CatalogItem = items[i];
        let mut k: usize = sorted.len();
        proof {
            assert(sorted@.take(k as int) =~= sorted@);
        }
        while k > 0 && ranks_above(&sorted[k - 1], &item)
            invariant
                k <= sorted.len(),
                insertion_point(sorted@, item) == insertion_point(sorted@.take(k as int), item),
            decreases k,
        {
            proof {
                assert(sorted@.take(k as int).drop_last() =~= sorted@.take(k as int - 1));
            }
            k = k - 1;
        }
        proof {
            assert(items@.take(i as int + 1).drop_last() =~= items@.take(i as int));
            if k > 0 {
                assert(sorted@.take(k as int).last() == sorted@[k as int - 1]);
            }
            assert(insertion_point(sorted@, item) == k);
        }
        sorted.insert(k, item);
        i = i + 1;
    }
    proof {
        assert(items@.take(i as int) =~= items@);
        lemma_by_supply(items@);
        assert forall|rank: int| #[trigger] of_rank(sorted@, rank) == of_rank(items@, rank) by {
            lemma_by_supply_stable(items@, rank);
        }
    }
    sorted
}

/// Picks the items to buy out of those announced: total supply known and
/// within the ceiling, scarcest first.
pub fn select_purchases(announced: &Vec<CatalogItem>, max_supply: i32) -> (chosen: Vec<CatalogItem>)
    ensures
        chosen@ == purchase_set(announced@, max_supply),
        sorted_by_supply(chosen@),
{
    let mut scarce: Vec<CatalogItem> = Vec::new();
    let mut i: usize = 0;
    while i < announced.len()
        invariant
            i <= announced.len(),
            scarce@ == scarce_items(announced@.take(i as int), max_supply),
        decreases announced.len() - i,
    {
        proof {
            assert(announced@.take(i as int + 1).drop_last() =~= announced@.take(i as int));
        }
        let within: bool = match announced[i].total_supply {
            Some(supply) => supply <= max_supply,
            None => false,
        };
        if within {
            scarce.push(announced[i]);
        }
        i = i + 1;
    }
    proof {
        assert(announced@.take(i as int) =~= announced@);
    }
    sort_by_supply(&scarce)
}

} // verus!
