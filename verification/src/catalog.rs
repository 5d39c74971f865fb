//! The catalog as the buyer reads it: plain values, no handle into the
//! transport that delivered them.

use std::collections::BTreeMap;
use vstd::prelude::*;

verus! {

broadcast use vstd::std_specs::btree::group_btree_axioms;

/// The version token that asks for the catalog whatever the last seen
/// version was.
pub const UNCONDITIONAL_TOKEN: i32 = 0;

/// One plain (not one-of-a-kind) gift of the catalog.
#[derive(Clone, Copy, Debug, PartialEq, Eq)]
pub struct CatalogItem {
    pub id: i64,
    /// Price in stars.
    pub price: i64,
    /// Whether the supply is bounded.
    pub limited: bool,
    /// How many were ever on offer; known for bounded items only.
    pub total_supply: Option<i32>,
    pub remaining_supply: Option<i32>,
    pub sold_out: bool,
    /// Identifier of the picture shown with the item, where it has one.
    pub asset_id: Option<i64>,
}

/// An entry of the catalog. One-of-a-kind variants carry nothing the buyer
/// reads.
#[derive(Clone, Copy, Debug, PartialEq, Eq)]
pub enum CatalogEntry {
    Plain(CatalogItem),
    Unique,
}

/// The answer to a catalog request.
#[derive(Clone, Debug, PartialEq, Eq)]
pub enum CatalogResponse {
    /// The catalog still has the version that was asked about.
    NotModified,
    /// The catalog at a new version.
    Gifts { hash: i32, entries: Vec<CatalogEntry> },
}

/// The plain items among `entries`, in their order.
pub open spec fn plain_items(entries: Seq<CatalogEntry>) -> Seq<CatalogItem>
    decreases entries.len(),
{
    if entries.len() == 0 {
        Seq::empty()
    } else {
        let before = plain_items(entries.drop_last());
        match entries.last() {
            CatalogEntry::Plain(item) => before.push(item),
            CatalogEntry::Unique => before,
        }
    }
}

/// The price of each identifier among `items`. Where an identifier occurs
/// more than once, its last occurrence counts.
pub open spec fn price_table(items: Seq<CatalogItem>) -> Map<i64, i64>
    decreases items.len(),
{
    if items.len() == 0 {
        Map::empty()
    } else {
        price_table(items.drop_last()).insert(items.last().id, items.last().price)
    }
}

/// The identifiers of `items`, in their order.
pub open spec fn ids_of(items: Seq<CatalogItem>) -> Seq<i64> {
    Seq::new(items.len(), |i: int| items[i].id)
}

/// Keeps the plain items of a catalog answer's entries.
pub fn collect_plain_items(entries: &Vec<CatalogEntry>) -> (items: Vec<CatalogItem>)
    ensures
        items@ == plain_items(entries@),
{
    let mut items: Vec<CatalogItem> = Vec::new();
    let mut i: usize = 0;
    while i < entries.len()
        invariant
            i <= entries.len(),
            items@ == plain_items(entries@.take(i as int)),
        decreases entries.len() - i,
    {
        proof {
            assert(entries@.take(i as int + 1).drop_last() =~= entries@.take(i as int));
        }
        match entries[i] {
            CatalogEntry::Plain(item) => {
                items.push(item);
            },
            CatalogEntry::Unique => {},
        }
        i = i + 1;
    }
    proof {
        assert(entries@.take(i as int) =~= entries@);
    }
    items
}

/// Builds the table from identifier to price.
pub fn collect_price_table(items: &Vec<CatalogItem>) -> (table: BTreeMap<i64, i64>)
    ensures
        table@ == price_table(items@),
{
    let mut table: BTreeMap<i64, i64> = BTreeMap::new();
    let mut i: usize = 0;
    while i < items.len()
        invariant
            i <= items.len(),
            table@ == price_table(items@.take(i as int)),
        decreases items.len() - i,
    {
        proof {
            assert(items@.take(i as int + 1).drop_last() =~= items@.take(i as int));
        }
        table.insert(items[i].id, items[i].price);
        i = i + 1;
    }
    proof {
        assert(items@.take(i as int) =~= items@);
    }
    table
}

/// Lists the identifiers of `items`.
pub fn collect_ids(items: &Vec<CatalogItem>) -> (ids: Vec<i64>)
    ensures
        ids@ == ids_of(items@),
{
    let mut ids: Vec<i64> = Vec::new();
    let mut i: usize = 0;
    while i < items.len()
        invariant
            i <= items.len(),
            ids@ == ids_of(items@.take(i as int)),
        decreases items.len() - i,
    {
        ids.push(items[i].id);
        proof {
            assert(ids@ =~= ids_of(items@.take(i as int + 1)));
        }
        i = i + 1;
    }
    proof {
        assert(items@.take(i as int) =~= items@);
    }
    ids
}

} // verus!
