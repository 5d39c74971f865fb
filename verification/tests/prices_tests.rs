use gift_buyer::catalog::{CatalogEntry, CatalogItem, CatalogResponse};
use gift_buyer::error::Error;
use gift_buyer::prices::{resolve_prices, resolve_prices_from_catalog};
use std::collections::BTreeMap;

fn item(id: i64, price: i64) -> CatalogItem {
    CatalogItem {
        id,
        price,
        limited: true,
        total_supply: Some(10),
        remaining_supply: Some(10),
        sold_out: false,
        asset_id: None,
    }
}

#[test]
fn known_prices_come_back_in_the_order_of_the_ids() {
    let mut known = BTreeMap::new();
    known.insert(1, 10);
    known.insert(2, 20);
    known.insert(3, 30);
    assert_eq!(resolve_prices(&vec![3, 1, 2, 1], &known), Ok(vec![30, 10, 20, 10]));
}

#[test]
fn no_ids_need_no_prices() {
    let known = BTreeMap::new();
    assert_eq!(resolve_prices(&vec![], &known), Ok(vec![]));
}

#[test]
fn first_unknown_id_fails_the_lookup() {
    let mut known = BTreeMap::new();
    known.insert(1, 10);
    assert_eq!(resolve_prices(&vec![1, 5, 6], &known), Err(Error::GiftPriceNotFound(5)));
}

#[test]
fn price_missing_from_fetched_catalog() {
    let fetched = CatalogResponse::Gifts { hash: 9, entries: vec![CatalogEntry::Plain(item(1, 15))] };
    assert_eq!(resolve_prices_from_catalog(&vec![1, 2], &fetched), Err(Error::GiftPriceNotFound(2)));
    assert_eq!(resolve_prices_from_catalog(&vec![1], &fetched), Ok(vec![15]));
}

#[test]
fn unique_entries_carry_no_price() {
    let fetched = CatalogResponse::Gifts {
        hash: 9,
        entries: vec![CatalogEntry::Unique, CatalogEntry::Plain(item(4, 44)), CatalogEntry::Unique],
    };
    assert_eq!(resolve_prices_from_catalog(&vec![4, 4], &fetched), Ok(vec![44, 44]));
}

#[test]
fn later_catalog_entry_overrides_earlier_price() {
    let fetched = CatalogResponse::Gifts {
        hash: 9,
        entries: vec![CatalogEntry::Plain(item(4, 44)), CatalogEntry::Plain(item(4, 55))],
    };
    assert_eq!(resolve_prices_from_catalog(&vec![4], &fetched), Ok(vec![55]));
}

#[test]
fn unchanged_answer_to_unconditional_request_fails() {
    assert_eq!(
        resolve_prices_from_catalog(&vec![1], &CatalogResponse::NotModified),
        Err(Error::UnexpectedNotModified)
    );
}
