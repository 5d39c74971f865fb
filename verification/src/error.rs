//! The failures that end a price lookup, a destination lookup or an
//! account's purchase round.

use crate::engine::EngineFailure;
use crate::text::{push_i64, signed_decimal};
use vstd::prelude::*;
use vstd::string::*;

verus! {

#[derive(Clone, Debug, PartialEq, Eq)]
pub enum Error {
    /// The price table has no entry for this gift.
    GiftPriceNotFound(i64),
    /// An unconditional catalog request was answered with "not modified".
    UnexpectedNotModified,
    /// No chat goes by this username.
    ChatNotFound(String),
    /// The username belongs to a chat that is no channel.
    ChatIsNotChannel,
    /// The channel is known but the account holds no access to it.
    ChannelNotAccessible(i64),
    /// A gift to buy has a price below zero.
    NegativeGiftPrice,
    /// An account's engine gave up.
    Engine(EngineFailure),
}

impl Error {
    /// The failure in words.
    pub open spec fn message_text(self) -> Seq<char> {
        match self {
            Error::GiftPriceNotFound(gift_id) => "gift price not found (gift_id = "@
                + signed_decimal(gift_id as int) + ")"@,
            Error::UnexpectedNotModified => "unexpected not modified"@,
            Error::ChatNotFound(username) => "chat not found (username = "@ + username@ + ")"@,
            Error::ChatIsNotChannel => "chat is not a channel"@,
            Error::ChannelNotAccessible(channel_id) => "channel not accesible (channel_id = "@
                + signed_decimal(channel_id as int) + ")"@,
            Error::NegativeGiftPrice => "gift price is negative"@,
            Error::Engine(EngineFailure::BalanceUnavailable) => "balance not available"@,
            Error::Engine(EngineFailure::ReportUndeliverable) => "purchase report not delivered"@,
        }
    }

    /// Writes the failure out for a log or a message.
    pub fn message(&self) -> (text: String)
        ensures
            text@ == self.message_text(),
    {
        match self {
            Error::GiftPriceNotFound(gift_id) => {
                let mut text = String::from_str("gift price not found (gift_id = ");
                push_i64(&mut text, *gift_id);
                text.append(")");
                text
            },
            Error::UnexpectedNotModified => String::from_str("unexpected not modified"),
            Error::ChatNotFound(username) => {
                let mut text = String::from_str("chat not found (username = ");
                text.append(username.as_str());
                text.append(")");
                text
            },
            Error::ChatIsNotChannel => String::from_str("chat is not a channel"),
            Error::ChannelNotAccessible(channel_id) => {
                let mut text = String::from_str("channel not accesible (channel_id = ");
                push_i64(&mut text, *channel_id);
                text.append(")");
                text
            },
            Error::NegativeGiftPrice => String::from_str("gift price is negative"),
            Error::Engine(EngineFailure::BalanceUnavailable) => String::from_str(
                "balance not available",
            ),
            Error::Engine(EngineFailure::ReportUndeliverable) => String::from_str(
                "purchase report not delivered",
            ),
        }
    }
}

} // verus!
