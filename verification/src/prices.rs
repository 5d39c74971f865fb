//! Price resolution: the price of each gift to buy, in the order of the
//! gifts, or the first gift whose price is unknown.

use crate::catalog::{collect_plain_items, collect_price_table, plain_items, price_table, CatalogResponse};
use crate::error::Error;
use std::collections::BTreeMap;
use vstd::prelude::*;

verus! {

broadcast use vstd::std_specs::btree::group_btree_axioms;

/// Every identifier has a price in the table.
pub open spec fn all_priced(gift_ids: Seq<i64>, table: Map<i64, i64>) -> bool {
    forall|i: int| 0 <= i < gift_ids.len() ==> table.contains_key(#[trigger] gift_ids[i])
}

/// The outcome of a lookup: the prices in the order of the identifiers, or
/// the first identifier that the table lacks.
pub open spec fn resolved(gift_ids: Seq<i64>, table: Map<i64, i64>, outcome: Result<
    Vec<i64>,
    Error,
>) -> bool {
    match outcome {
        Ok(prices) => {
            &&& all_priced(gift_ids, table)
            &&& prices@.len() == gift_ids.len()
            &&& forall|i: int| 0 <= i < gift_ids.len() ==> prices@[i] == table[gift_ids[i]]
        },
        Err(e) => exists|i: int|
            {
                &&& 0 <= i < gift_ids.len()
                &&& !table.contains_key(#[trigger] gift_ids[i])
                &&& all_priced(gift_ids.take(i), table)
                &&& e == Error::GiftPriceNotFound(gift_ids[i])
            },
    }
}

/// Where the prices of a round come from.
#[derive(Clone, Copy, Debug)]
pub enum PriceSource<'a> {
    /// A table that the caller holds already.
    Known(&'a BTreeMap<i64, i64>),
    /// A catalog fetched for the purpose with
    /// [`crate::catalog::UNCONDITIONAL_TOKEN`].
    Fetched(&'a CatalogResponse),
}

/// Whether `outcome` is what a lookup in `source` gives.
pub open spec fn resolved_from(gift_ids: Seq<i64>, source: PriceSource<'_>, outcome: Result<
    Vec<i64>,
    Error,
>) -> bool {
    match source {
        PriceSource::Known(table) => resolved(gift_ids, table@, outcome),
        PriceSource::Fetched(fetched) => match *fetched {
            CatalogResponse::NotModified => outcome == Err::<Vec<i64>, Error>(
                Error::UnexpectedNotModified,
            ),
            CatalogResponse::Gifts { hash, entries } => resolved(
                gift_ids,
                price_table(plain_items(entries@)),
                outcome,
            ),
        },
    }
}

/// Looks each identifier up in a table of known prices. One miss fails the
/// whole call; there is no partial result.
pub fn resolve_prices(gift_ids: &Vec<i64>, known_prices: &BTreeMap<i64, i64>) -> (outcome: Result<
    Vec<i64>,
    Error,
>)
    ensures
        resolved(gift_ids@, known_prices@, outcome),
        outcome is Ok <==> all_priced(gift_ids@, known_prices@),
{
    let mut prices: Vec<i64> = Vec::new();
    let mut i: usize = 0;
    while i < gift_ids.len()
        invariant
            i <= gift_ids.len(),
            prices@.len() == i,
            all_priced(gift_ids@.take(i as int), known_prices@),
            forall|k: int| 0 <= k < i ==> prices@[k] == known_prices@[gift_ids@[k]],
        decreases gift_ids.len() - i,
    {
        let id: i64 = gift_ids[i];
        match known_prices.get(&id) {
            Some(price) => {
                prices.push(*price);
            },
            None => {
                proof {
                    assert(!known_prices@.contains_key(gift_ids@[i as int]));
                }
                return Err(Error::GiftPriceNotFound(id));
            },
        }
        proof {
            assert forall|k: int| 0 <= k < i + 1 implies known_prices@.contains_key(
                #[trigger] gift_ids@.take(i as int + 1)[k],
            ) by {
                if k < i {
                    assert(gift_ids@.take(i as int)[k] == gift_ids@[k]);
                }
            }
        }
        i = i + 1;
    }
    proof {
        assert(gift_ids@.take(i as int) =~= gift_ids@);
    }
    Ok(prices)
}

/// Looks each identifier up in a catalog that was fetched for the purpose
/// with [`crate::catalog::UNCONDITIONAL_TOKEN`]. Only plain entries carry a
/// price. An answer of "not modified" breaks the catalog's promise for that
/// token and fails the call.
pub fn resolve_prices_from_catalog(gift_ids: &Vec<i64>, fetched: &CatalogResponse) -> (outcome:
    Result<Vec<i64>, Error>)
    ensures
        match *fetched {
            CatalogResponse::NotModified => outcome == Err::<Vec<i64>, Error>(
                Error::UnexpectedNotModified,
            ),
            CatalogResponse::Gifts { hash, entries } => resolved(
                gift_ids@,
                price_table(plain_items(entries@)),
                outcome,
            ) && (outcome is Ok <==> all_priced(gift_ids@, price_table(plain_items(entries@)))),
        },
{
    match fetched {
        CatalogResponse::NotModified => Err(Error::UnexpectedNotModified),
        CatalogResponse::Gifts { hash: _, entries } => {
            let items = collect_plain_items(entries);
            let table = collect_price_table(&items);
            resolve_prices(gift_ids, &table)
        },
    }
}

/// Looks each identifier up in whichever source the round has.
pub fn resolve_prices_from(gift_ids: &Vec<i64>, source: PriceSource<'_>) -> (outcome: Result<
    Vec<i64>,
    Error,
>)
    ensures
        resolved_from(gift_ids@, source, outcome),
{
    match source {
        PriceSource::Known(table) => resolve_prices(gift_ids, table),
        PriceSource::Fetched(fetched) => resolve_prices_from_catalog(gift_ids, fetched),
    }
}

} // verus!
