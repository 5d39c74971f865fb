//! The catalog poller: what one answer of the catalog leads to.
//!
//! The poller owns the last seen version token and the set of items already
//! selected for purchase. The caller fetches the catalog with
//! [`Poller::token`], hands the answer to [`Poller::on_response`], announces
//! what the tick names and runs the purchase round it orders.

use crate::catalog::{
    collect_ids, collect_plain_items, collect_price_table, ids_of, plain_items, price_table,
    CatalogItem, CatalogResponse,
};
use crate::selection::{
    ids_in, notification_set, purchase_set, select_notifications, select_purchases,
};
use std::collections::{BTreeMap, BTreeSet};
use vstd::prelude::*;

verus! {

broadcast use vstd::std_specs::btree::group_btree_axioms;

/// The seconds between two requests for the catalog.
pub const POLL_INTERVAL_SECS: u64 = 2;

/// What the operator configures.
#[derive(Clone, Copy, Debug, PartialEq, Eq)]
pub struct PollerConfig {
    /// Announce unbounded items too.
    pub include_unlimited: bool,
    /// Buy, not only observe.
    pub purchase_enabled: bool,
    /// Attempts per item and account; the engine's default where absent.
    pub attempt_limit: Option<u64>,
    /// The largest total supply that is still bought.
    pub max_supply: i32,
}

/// The mathematical state of a poller.
pub struct PollerModel {
    pub token: i32,
    pub seen: Set<i64>,
    pub config: PollerConfig,
}

impl PollerModel {
    /// The items that an answer makes the poller announce.
    pub open spec fn announced(self, response: CatalogResponse) -> Seq<CatalogItem> {
        match response {
            CatalogResponse::NotModified => Seq::empty(),
            CatalogResponse::Gifts { hash, entries } => notification_set(
                plain_items(entries@),
                self.config.include_unlimited,
                self.seen,
            ),
        }
    }

    /// The items that an answer makes the poller select for purchase, in
    /// the order in which they are to be bought.
    pub open spec fn chosen(self, response: CatalogResponse) -> Seq<CatalogItem> {
        purchase_set(self.announced(response), self.config.max_supply)
    }

    /// Whether an answer leads to a purchase round.
    pub open spec fn dispatches(self, response: CatalogResponse) -> bool {
        self.config.purchase_enabled && self.chosen(response).len() > 0
    }

    /// The state after an answer. A changed catalog replaces the token and
    /// marks every selected item as seen; an unchanged one changes nothing.
    pub open spec fn after(self, response: CatalogResponse) -> PollerModel {
        match response {
            CatalogResponse::NotModified => self,
            CatalogResponse::Gifts { hash, entries } => PollerModel {
                token: hash,
                seen: self.seen.union(ids_in(self.chosen(response))),
                config: self.config,
            },
        }
    }
}

/// A purchase round to run: what to buy, in which order, at which price.
#[derive(Clone, Debug, PartialEq, Eq)]
pub struct PurchaseOrder {
    pub gift_ids: Vec<i64>,
    pub prices: BTreeMap<i64, i64>,
    pub limit: Option<u64>,
}

/// What one answer of the catalog asks the caller to do.
#[derive(Clone, Debug, PartialEq, Eq)]
pub struct Tick {
    /// The items to announce, in catalog order.
    pub announced: Vec<CatalogItem>,
    /// The purchase round to run, if any.
    pub order: Option<PurchaseOrder>,
}

/// The poller's state between two ticks.
#[derive(Clone, Debug)]
pub struct Poller {
    token: i32,
    seen: BTreeSet<i64>,
    config: PollerConfig,
}

impl View for Poller {
    type V = PollerModel;

    closed spec fn view(&self) -> PollerModel {
        PollerModel { token: self.token, seen: self.seen@, config: self.config }
    }
}

impl Poller {
    /// A poller that has seen nothing and starts from the given token.
    pub fn new(initial_token: i32, config: PollerConfig) -> (poller: Poller)
        ensures
            poller@ == (PollerModel { token: initial_token, seen: Set::empty(), config }),
    {
        Poller { token: initial_token, seen: BTreeSet::new(), config }
    }

    /// The version token to send with the next catalog request.
    pub fn token(&self) -> (token: i32)
        ensures
            token == self@.token,
    {
        self.token
    }

    /// Whether an item was already selected for purchase.
    pub fn has_seen(&self, gift_id: i64) -> (yes: bool)
        ensures
            yes == self@.seen.contains(gift_id),
    {
        self.seen.contains(&gift_id)
    }

    /// Takes in one answer of the catalog.
    ///
    /// An unchanged catalog leads to nothing. A changed one replaces the
    /// token, names the items to announce, and selects the items to buy,
    /// which are marked as seen here, before any purchase is attempted. The
    /// order is handed out only where purchasing is enabled and something was
    /// selected.
    pub fn on_response(&mut self, response: &CatalogResponse) -> (tick: Tick)
        ensures
            final(self)@ == old(self)@.after(*response),
            tick.announced@ == old(self)@.announced(*response),
            tick.order is Some <==> old(self)@.dispatches(*response),
            tick.order matches Some(order) ==> {
                &&& order.gift_ids@ == ids_of(old(self)@.chosen(*response))
                &&& order.prices@ == price_table(old(self)@.chosen(*response))
                &&& order.limit == old(self)@.config.attempt_limit
            },
    {
        match response {
            CatalogResponse::NotModified => Tick { announced: Vec::new(), order: None },
            CatalogResponse::Gifts { hash, entries } => {
                let items = collect_plain_items(entries);
                let announced = select_notifications(&items, self.config.include_unlimited, &self.seen);
                let chosen = select_purchases(&announced, self.config.max_supply);
                self.token = *hash;
                self.mark_seen(&chosen);
                let order = if self.config.purchase_enabled && chosen.len() > 0 {
                    Some(
                        PurchaseOrder {
                            gift_ids: collect_ids(&chosen),
                            prices: collect_price_table(&chosen),
                            limit: self.config.attempt_limit,
                        },
                    )
                } else {
                    None
                };
                Tick { announced, order }
            },
        }
    }

    /// Adds the identifiers of `items` to the seen set.
    fn mark_seen(&mut self, items: &Vec<CatalogItem>)
        ensures
            final(self)@.seen == old(self)@.seen.union(ids_in(items@)),
            final(self)@.token == old(self)@.token,
            final(self)@.config == old(self)@.config,
    {
        let mut i: usize = 0;
        while i < items.len()
            invariant
                i <= items.len(),
                self.seen@ == old(self).seen@.union(ids_in(items@.take(i as int))),
                self.token == old(self).token,
                self.config == old(self).config,
            decreases items.len() - i,
        {
            let ghost before = items@.take(i as int);
            let ghost grown = items@.take(i as int + 1);
            self.seen.insert(items[i].id);
            proof {
                assert forall|id: i64| ids_in(grown).contains(id) <==> (ids_in(before).contains(id)
                    || id == items@[i as int].id) by {
                    if ids_in(before).contains(id) {
                        let k = choose|k: int| 0 <= k < before.len() && (#[trigger] before[k]).id == id;
                        assert(grown[k].id == id);
                    }
                    if id == items@[i as int].id {
                        assert(grown[i as int].id == id);
                    }
                    if ids_in(grown).contains(id) {
                        let k = choose|k: int| 0 <= k < grown.len() && (#[trigger] grown[k]).id == id;
                        if k < i {
                            assert(before[k].id == id);
                        }
                    }
                }
                assert(self.seen@ =~= old(self).seen@.union(ids_in(grown)));
            }
            i = i + 1;
        }
        proof {
            assert(items@.take(i as int) =~= items@);
        }
    }
}

} // verus!
