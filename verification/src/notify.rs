//! What the operators are shown: one notice per new gift, one message per
//! purchase attempt.

use crate::catalog::CatalogItem;
use crate::engine::AttemptStatus;
use crate::text::{
    decimal, decimal_i64, escape_plus, flag_text, lemma_signed_decimal_reads_back, optional_text,
    parsed_i64, plus_escaped, push_flag, push_i64, push_optional, push_u64, signed_decimal,
};
use vstd::prelude::*;
use vstd::string::*;

verus! {

/// The largest chunk that one request for a gift's picture asks for.
pub const GET_FILE_LIMIT_MAX: i32 = 1024 * 1023;

/// The size code of the picture that a notice shows: the small thumbnail.
pub fn picture_thumb_size() -> (code: &'static str)
    ensures
        code@ == "s"@,
{
    "s"
}

/// How a purchase attempt ended, with the failure's own words where it
/// failed.
#[derive(Clone, Debug, PartialEq, Eq)]
pub enum GiftBuyStatus {
    PaymentFormError(String),
    SendStarsFormError(String),
    Success,
}

/// A message on one purchase attempt.
#[derive(Clone, Debug, PartialEq, Eq)]
pub struct StatusMessage {
    pub text: String,
    /// Whether the text is to be rendered as markup. Failures are sent
    /// plain, since their wording is not under our control.
    pub markdown: bool,
}

/// The announcement of one gift: a picture, a caption and one button.
#[derive(Clone, Debug, PartialEq, Eq)]
pub struct GiftNotice {
    pub gift_id: i64,
    /// The picture to fetch.
    pub asset_id: i64,
    pub caption: String,
    pub button_label: String,
    /// What the button sends back when it is pressed: the gift's identifier.
    pub button_payload: String,
}

/// The headline of a status message.
pub open spec fn status_title(status: GiftBuyStatus) -> Seq<char> {
    match status {
        GiftBuyStatus::PaymentFormError(err) => "\u{274c} Error\\(PaymentForm\\): "@ + err@,
        GiftBuyStatus::SendStarsFormError(err) => "\u{274c} Error\\(SendStarsForm\\): "@ + err@,
        GiftBuyStatus::Success => "\u{2705} Gift bought"@,
    }
}

/// The text of a status message.
pub open spec fn status_text(
    count: u64,
    phone_number: Seq<char>,
    balance: i64,
    gift_id: i64,
    status: GiftBuyStatus,
) -> Seq<char> {
    status_title(status) + "\n\nCount: *"@ + decimal(count as nat) + "*\nPhone Number: *"@
        + plus_escaped(phone_number) + "*\nBalance: "@ + signed_decimal(balance as int)
        + " \u{2b50}\u{fe0f}\nID: `"@ + signed_decimal(gift_id as int) + "`"@
}

/// The caption under a gift's picture.
pub open spec fn caption(item: CatalogItem) -> Seq<char> {
    "ID: `"@ + signed_decimal(item.id as int) + "`\n\nLimited: *"@ + flag_text(item.limited)
        + "*\n\nStars: *"@ + signed_decimal(item.price as int)
        + "* \u{2b50}\u{fe0f}\n\nSupply: *"@ + optional_text(item.total_supply) + "*\nRemains: *"@
        + optional_text(item.remaining_supply) + "*"@
}

/// The items that have a picture, in their order. Only these are announced.
pub open spec fn pictured(items: Seq<CatalogItem>) -> Seq<CatalogItem>
    decreases items.len(),
{
    if items.len() == 0 {
        Seq::empty()
    } else if items.last().asset_id is Some {
        pictured(items.drop_last()).push(items.last())
    } else {
        pictured(items.drop_last())
    }
}

/// Whether `notice` announces `item`.
pub open spec fn announces(notice: GiftNotice, item: CatalogItem) -> bool {
    &&& notice.gift_id == item.id
    &&& item.asset_id == Some(notice.asset_id)
    &&& notice.caption@ == caption(item)
    &&& notice.button_label@ == "Buy"@
    &&& notice.button_payload@ == signed_decimal(item.id as int)
}

/// Pressing the button of a notice hands back the gift that the notice
/// announces: its payload reads as that gift's identifier.
pub proof fn lemma_button_names_the_gift(notice: GiftNotice, item: CatalogItem)
    requires
        announces(notice, item),
    ensures
        parsed_i64(notice.button_payload@) == Some(item.id),
{
    lemma_signed_decimal_reads_back(item.id);
}

impl GiftBuyStatus {
    /// The outcome without the failure's words.
    pub fn attempt_status(&self) -> (status: AttemptStatus)
        ensures
            status == match *self {
                GiftBuyStatus::PaymentFormError(_) => AttemptStatus::FormError,
                GiftBuyStatus::SendStarsFormError(_) => AttemptStatus::ConfirmationError,
                GiftBuyStatus::Success => AttemptStatus::Success,
            },
    {
        match self {
            GiftBuyStatus::PaymentFormError(_) => AttemptStatus::FormError,
            GiftBuyStatus::SendStarsFormError(_) => AttemptStatus::ConfirmationError,
            GiftBuyStatus::Success => AttemptStatus::Success,
        }
    }

    /// The outcome of an attempt together with what the failed call said.
    /// A success has nothing to quote.
    pub fn from_attempt(status: AttemptStatus, detail: String) -> (full: GiftBuyStatus)
        ensures
            full == match status {
                AttemptStatus::FormError => GiftBuyStatus::PaymentFormError(detail),
                AttemptStatus::ConfirmationError => GiftBuyStatus::SendStarsFormError(detail),
                AttemptStatus::Success => GiftBuyStatus::Success,
            },
    {
        match status {
            AttemptStatus::FormError => GiftBuyStatus::PaymentFormError(detail),
            AttemptStatus::ConfirmationError => GiftBuyStatus::SendStarsFormError(detail),
            AttemptStatus::Success => GiftBuyStatus::Success,
        }
    }
}

/// Tells whether announcing to the recipients failed as a whole. `delivered`
/// holds, for each recipient, whether the notice reached it. One recipient
/// failing is no failure of the whole; all of them failing is.
pub fn all_deliveries_failed(delivered: &Vec<bool>) -> (failed: bool)
    ensures
        failed == (delivered@.len() > 0 && forall|i: int|
            0 <= i < delivered@.len() ==> !delivered@[i]),
{
    let mut i: usize = 0;
    while i < delivered.len()
        invariant
            i <= delivered.len(),
            forall|k: int| 0 <= k < i ==> !delivered@[k],
        decreases delivered.len() - i,
    {
        if delivered[i] {
            return false;
        }
        i = i + 1;
    }
    delivered.len() > 0
}

/// Composes the message on one purchase attempt: the outcome, the attempt's
/// number, the account (with `+` escaped), its balance after the attempt and
/// the gift.
pub fn notify_gift_buy_status(
    count: u64,
    phone_number: &str,
    balance: i64,
    gift_id: i64,
    status: &GiftBuyStatus,
) -> (message: StatusMessage)
    ensures
        message.text@ == status_text(count, phone_number@, balance, gift_id, *status),
        message.markdown == (*status is Success),
{
    let mut text = String::new();
    let markdown: bool = match status {
        GiftBuyStatus::PaymentFormError(err) => {
            text.append("\u{274c} Error\\(PaymentForm\\): ");
            text.append(err.as_str());
            false
        },
        GiftBuyStatus::SendStarsFormError(err) => {
            text.append("\u{274c} Error\\(SendStarsForm\\): ");
            text.append(err.as_str());
            false
        },
        GiftBuyStatus::Success => {
            text.append("\u{2705} Gift bought");
            true
        },
    };
    proof {
        assert(text@ =~= status_title(*status));
    }
    text.append("\n\nCount: *");
    push_u64(&mut text, count);
    text.append("*\nPhone Number: *");
    let phone = escape_plus(phone_number);
    text.append(phone.as_str());
    text.append("*\nBalance: ");
    push_i64(&mut text, balance);
    text.append(" \u{2b50}\u{fe0f}\nID: `");
    push_i64(&mut text, gift_id);
    text.append("`");
    StatusMessage { text, markdown }
}

/// Composes the caption of one gift.
pub fn gift_caption(item: &CatalogItem) -> (text: String)
    ensures
        text@ == caption(*item),
{
    let mut text = String::new();
    text.append("ID: `");
    proof {
        assert(text@ =~= "ID: `"@);
    }
    push_i64(&mut text, item.id);
    text.append("`\n\nLimited: *");
    push_flag(&mut text, item.limited);
    text.append("*\n\nStars: *");
    push_i64(&mut text, item.price);
    text.append("* \u{2b50}\u{fe0f}\n\nSupply: *");
    push_optional(&mut text, item.total_supply);
    text.append("*\nRemains: *");
    push_optional(&mut text, item.remaining_supply);
    text.append("*");
    text
}

/// Composes the notices for newly seen gifts, one for each gift that has a
/// picture, in the order of the gifts.
pub fn notify_gifts(gifts: &Vec<CatalogItem>) -> (notices: Vec<GiftNotice>)
    ensures
        notices@.len() == pictured(gifts@).len(),
        forall|k: int|
            0 <= k < notices@.len() ==> announces(#[trigger] notices@[k], pictured(gifts@)[k]),
{
    let mut notices: Vec<GiftNotice> = Vec::new();
    let mut i: usize = 0;
    while i < gifts.len()
        invariant
            i <= gifts.len(),
            notices@.len() == pictured(gifts@.take(i as int)).len(),
            forall|k: int|
                0 <= k < notices@.len() ==> announces(
                    #[trigger] notices@[k],
                    pictured(gifts@.take(i as int))[k],
                ),
        decreases gifts.len() - i,
    {
        proof {
            assert(gifts@.take(i as int + 1).drop_last() =~= gifts@.take(i as int));
        }
        let gift: CatalogItem = gifts[i];
        match gift.asset_id {
            Some(asset_id) => {
                let notice = GiftNotice {
                    gift_id: gift.id,
                    asset_id,
                    caption: gift_caption(&gift),
                    button_label: String::from_str("Buy"),
                    button_payload: decimal_i64(gift.id),
                };
                notices.push(notice);
            },
            None => {},
        }
        i = i + 1;
    }
    proof {
        assert(gifts@.take(i as int) =~= gifts@);
    }
    notices
}

} // verus!
