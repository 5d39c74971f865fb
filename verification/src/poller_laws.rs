//! What holds of every poller, whatever the catalog answers.

use crate::catalog::{CatalogItem, CatalogResponse};
use crate::poller::PollerModel;
use crate::selection::{
    by_supply, eligible, ids_in, lemma_by_supply, notification_set, purchase_set, scarce_items,
    sorted_by_supply, within_supply,
};
use vstd::prelude::*;

verus! {

/// Every announced item is an eligible item of the catalog.
pub proof fn lemma_announced_are_eligible(
    items: Seq<CatalogItem>,
    include_unlimited: bool,
    seen: Set<i64>,
)
    ensures
        forall|k: int|
            0 <= k < notification_set(items, include_unlimited, seen).len() ==> {
                let item = #[trigger] notification_set(items, include_unlimited, seen)[k];
                eligible(item, include_unlimited, seen) && items.contains(item)
            },
    decreases items.len(),
{
    if items.len() > 0 {
        let shorter = items.drop_last();
        let before = notification_set(shorter, include_unlimited, seen);
        let all = notification_set(items, include_unlimited, seen);
        lemma_announced_are_eligible(shorter, include_unlimited, seen);
        assert forall|k: int| 0 <= k < all.len() implies eligible(
            #[trigger] all[k],
            include_unlimited,
            seen,
        ) && items.contains(all[k]) by {
            if k < before.len() {
                assert(all[k] == before[k]);
                let j = choose|j: int| 0 <= j < shorter.len() && shorter[j] == before[k];
                assert(items[j] == all[k]);
            } else {
                assert(all[k] == items.last());
                assert(items[items.len() - 1] == all[k]);
            }
        }
    }
}

/// Every scarce item is one of the given items and within the ceiling.
pub proof fn lemma_scarce_are_within(items: Seq<CatalogItem>, max_supply: i32)
    ensures
        forall|k: int|
            0 <= k < scarce_items(items, max_supply).len() ==> {
                let item = #[trigger] scarce_items(items, max_supply)[k];
                within_supply(item, max_supply) && items.contains(item)
            },
    decreases items.len(),
{
    if items.len() > 0 {
        let shorter = items.drop_last();
        let before = scarce_items(shorter, max_supply);
        let all = scarce_items(items, max_supply);
        lemma_scarce_are_within(shorter, max_supply);
        assert forall|k: int| 0 <= k < all.len() implies within_supply(#[trigger] all[k], max_supply)
            && items.contains(all[k]) by {
            if k < before.len() {
                assert(all[k] == before[k]);
                let j = choose|j: int| 0 <= j < shorter.len() && shorter[j] == before[k];
                assert(items[j] == all[k]);
            } else {
                assert(all[k] == items.last());
                assert(items[items.len() - 1] == all[k]);
            }
        }
    }
}

/// The purchase set is sorted ascending by total supply, and each of its
/// items was announced, has a known total supply and lies within the
/// ceiling.
pub proof fn lemma_purchase_set(announced: Seq<CatalogItem>, max_supply: i32)
    ensures
        sorted_by_supply(purchase_set(announced, max_supply)),
        forall|k: int|
            0 <= k < purchase_set(announced, max_supply).len() ==> {
                let item = #[trigger] purchase_set(announced, max_supply)[k];
                within_supply(item, max_supply) && announced.contains(item)
            },
{
    broadcast use vstd::seq_lib::group_to_multiset_ensures;

    let scarce = scarce_items(announced, max_supply);
    let chosen = by_supply(scarce);
    lemma_by_supply(scarce);
    lemma_scarce_are_within(announced, max_supply);
    assert forall|k: int| 0 <= k < chosen.len() implies within_supply(#[trigger] chosen[k], max_supply)
        && announced.contains(chosen[k]) by {
        assert(chosen.contains(chosen[k]));
        assert(chosen.to_multiset().count(chosen[k]) > 0);
        assert(scarce.to_multiset().count(chosen[k]) > 0);
        assert(scarce.contains(chosen[k]));
        let j = choose|j: int| 0 <= j < scarce.len() && scarce[j] == chosen[k];
        assert(within_supply(scarce[j], max_supply) && announced.contains(scarce[j]));
    }
}

/// An item that is in the seen set is excluded from what the next answer
/// makes the poller announce and from what it makes the poller buy, however
/// often the catalog lists it again.
pub proof fn lemma_seen_items_excluded(m: PollerModel, response: CatalogResponse)
    ensures
        forall|k: int|
            0 <= k < m.announced(response).len() ==> !m.seen.contains(
                (#[trigger] m.announced(response)[k]).id,
            ),
        forall|k: int|
            0 <= k < m.chosen(response).len() ==> !m.seen.contains(
                (#[trigger] m.chosen(response)[k]).id,
            ),
{
    let announced = m.announced(response);
    match response {
        CatalogResponse::NotModified => {},
        CatalogResponse::Gifts { hash, entries } => {
            lemma_announced_are_eligible(
                crate::catalog::plain_items(entries@),
                m.config.include_unlimited,
                m.seen,
            );
        },
    }
    lemma_purchase_set(announced, m.config.max_supply);
    assert forall|k: int| 0 <= k < m.chosen(response).len() implies !m.seen.contains(
        (#[trigger] m.chosen(response)[k]).id,
    ) by {
        let item = m.chosen(response)[k];
        assert(announced.contains(item));
        let j = choose|j: int| 0 <= j < announced.len() && announced[j] == item;
        assert(!m.seen.contains(announced[j].id));
    }
}

/// The seen set only grows, and it holds every item that an answer made the
/// poller select for purchase.
pub proof fn lemma_selected_are_marked(m: PollerModel, response: CatalogResponse)
    ensures
        m.seen.subset_of(m.after(response).seen),
        forall|k: int|
            0 <= k < m.chosen(response).len() ==> m.after(response).seen.contains(
                (#[trigger] m.chosen(response)[k]).id,
            ),
{
    match response {
        CatalogResponse::NotModified => {
            assert(m.chosen(response).len() == 0) by {
                assert(scarce_items(Seq::<CatalogItem>::empty(), m.config.max_supply).len() == 0);
                lemma_by_supply(scarce_items(Seq::<CatalogItem>::empty(), m.config.max_supply));
            }
        },
        CatalogResponse::Gifts { hash, entries } => {
            assert forall|k: int| 0 <= k < m.chosen(response).len() implies m.after(
                response,
            ).seen.contains((#[trigger] m.chosen(response)[k]).id) by {
                assert(ids_in(m.chosen(response)).contains(m.chosen(response)[k].id));
            }
        },
    }
}

/// The state after a whole sequence of answers, taken in order.
pub open spec fn after_all(m: PollerModel, responses: Seq<CatalogResponse>) -> PollerModel
    decreases responses.len(),
{
    if responses.len() == 0 {
        m
    } else {
        after_all(m.after(responses[0]), responses.skip(1))
    }
}

/// Whatever the catalog answers, nothing ever leaves the seen set.
pub proof fn lemma_seen_is_kept(m: PollerModel, responses: Seq<CatalogResponse>)
    ensures
        m.seen.subset_of(after_all(m, responses).seen),
    decreases responses.len(),
{
    if responses.len() > 0 {
        lemma_selected_are_marked(m, responses[0]);
        lemma_seen_is_kept(m.after(responses[0]), responses.skip(1));
    }
}

/// No item is dispatched to two purchase rounds: what one answer made the
/// poller select is neither announced nor selected on any later answer,
/// however many answers lie between the two.
pub proof fn lemma_never_selected_twice(
    m: PollerModel,
    first: CatalogResponse,
    between: Seq<CatalogResponse>,
    later: CatalogResponse,
)
    ensures
        forall|i: int, j: int|
            0 <= i < m.chosen(first).len() && 0 <= j < after_all(m.after(first), between).announced(
                later,
            ).len() ==> (#[trigger] m.chosen(first)[i]).id != (#[trigger] after_all(
                m.after(first),
                between,
            ).announced(later)[j]).id,
        forall|i: int, j: int|
            0 <= i < m.chosen(first).len() && 0 <= j < after_all(m.after(first), between).chosen(
                later,
            ).len() ==> (#[trigger] m.chosen(first)[i]).id != (#[trigger] after_all(
                m.after(first),
                between,
            ).chosen(later)[j]).id,
{
    lemma_selected_are_marked(m, first);
    lemma_seen_is_kept(m.after(first), between);
    lemma_seen_items_excluded(after_all(m.after(first), between), later);
}

/// An unchanged catalog leads to nothing: the state stays, nothing is
/// announced, nothing is selected and no round is ordered.
pub proof fn lemma_unchanged_is_idle(m: PollerModel)
    ensures
        m.after(CatalogResponse::NotModified) == m,
        m.announced(CatalogResponse::NotModified).len() == 0,
        m.chosen(CatalogResponse::NotModified).len() == 0,
        !m.dispatches(CatalogResponse::NotModified),
{
    assert(scarce_items(Seq::<CatalogItem>::empty(), m.config.max_supply).len() == 0);
    lemma_by_supply(scarce_items(Seq::<CatalogItem>::empty(), m.config.max_supply));
}

} // verus!
