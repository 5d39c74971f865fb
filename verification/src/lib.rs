//! Catalog watching and balance-aware purchasing of limited gifts.
//!
//! The crate holds the decisions of a gift buyer: which catalog entries are
//! worth announcing and buying, in which order, at which price, and how one
//! account spends its balance on them attempt by attempt. Every remote call
//! is left to the caller, which feeds the outcomes back in as plain values.

pub mod bot;
pub mod catalog;
pub mod channel;
pub mod cli;
pub mod engine;
pub mod engine_laws;
pub mod error;
pub mod notify;
pub mod peer;
pub mod poller;
pub mod poller_laws;
pub mod prices;
pub mod round;
pub mod selection;
pub mod text;
