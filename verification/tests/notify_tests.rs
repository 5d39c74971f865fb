use gift_buyer::catalog::CatalogItem;
use gift_buyer::engine::AttemptStatus;
use gift_buyer::error::Error;
use gift_buyer::engine::EngineFailure;
use gift_buyer::notify::{
    all_deliveries_failed, gift_caption, notify_gift_buy_status, notify_gifts, picture_thumb_size, GiftBuyStatus,
    GET_FILE_LIMIT_MAX,
};
use gift_buyer::text::{decimal_i64, decimal_u64, escape_plus, parse_i64};

fn gift(id: i64, asset_id: Option<i64>) -> CatalogItem {
    CatalogItem {
        id,
        price: 250,
        limited: true,
        total_supply: Some(5000),
        remaining_supply: Some(-3),
        sold_out: false,
        asset_id,
    }
}

#[test]
fn numbers_are_written_like_the_standard_library_writes_them() {
    for n in [0u64, 1, 9, 10, 11, 99, 100, 101, 12345, 1_000_000_007, u64::MAX - 1, u64::MAX] {
        assert_eq!(decimal_u64(n), n.to_string());
    }
    for i in [0i64, 1, -1, 9, -9, 10, -10, 42, -42, 5922589474136494556, i64::MAX, i64::MIN, i64::MIN + 1] {
        assert_eq!(decimal_i64(i), i.to_string());
    }
}

#[test]
fn plus_signs_are_escaped() {
    assert_eq!(escape_plus("+79991234567"), "\\+79991234567");
    assert_eq!(escape_plus("a+b++c"), "a\\+b\\+\\+c");
    assert_eq!(escape_plus(""), "");
    assert_eq!(escape_plus("no plus \u{2b50} here"), "no plus \u{2b50} here");
    assert_eq!(escape_plus("+"), "+".replace("+", "\\+"));
}

#[test]
fn success_message_is_markup() {
    let message = notify_gift_buy_status(2, "+15550001", 50, 42, &GiftBuyStatus::Success);
    assert!(message.markdown);
    assert_eq!(
        message.text,
        "\u{2705} Gift bought\n\nCount: *2*\nPhone Number: *\\+15550001*\nBalance: 50 \u{2b50}\u{fe0f}\nID: `42`"
    );
}

#[test]
fn failure_messages_are_plain_and_quote_the_failure() {
    let form = notify_gift_buy_status(
        1,
        "+15550001",
        -7,
        42,
        &GiftBuyStatus::PaymentFormError("rpc error 400".to_string()),
    );
    assert!(!form.markdown);
    assert_eq!(
        form.text,
        format!(
            "\u{274c} Error\\(PaymentForm\\): {}\n\nCount: *{}*\nPhone Number: *{}*\nBalance: {} \u{2b50}\u{fe0f}\nID: `{}`",
            "rpc error 400", 1, "\\+15550001", -7, 42
        )
    );
    let send = notify_gift_buy_status(
        100,
        "15550001",
        0,
        -5,
        &GiftBuyStatus::SendStarsFormError("timeout".to_string()),
    );
    assert!(!send.markdown);
    assert_eq!(
        send.text,
        "\u{274c} Error\\(SendStarsForm\\): timeout\n\nCount: *100*\nPhone Number: *15550001*\nBalance: 0 \u{2b50}\u{fe0f}\nID: `-5`"
    );
}

#[test]
fn caption_lists_the_gift() {
    assert_eq!(
        gift_caption(&gift(42, Some(1))),
        format!(
            "ID: `{}`\n\nLimited: *{}*\n\nStars: *{}* \u{2b50}\u{fe0f}\n\nSupply: *{:?}*\nRemains: *{:?}*",
            42,
            true,
            250,
            Some(5000),
            Some(-3)
        )
    );
    let mut open = gift(7, Some(1));
    open.limited = false;
    open.total_supply = None;
    open.remaining_supply = None;
    assert_eq!(
        gift_caption(&open),
        "ID: `7`\n\nLimited: *false*\n\nStars: *250* \u{2b50}\u{fe0f}\n\nSupply: *None*\nRemains: *None*"
    );
}

#[test]
fn only_gifts_with_a_picture_are_announced() {
    let notices = notify_gifts(&vec![gift(1, None), gift(2, Some(20)), gift(3, None), gift(-4, Some(40))]);
    assert_eq!(notices.len(), 2);
    assert_eq!(notices[0].gift_id, 2);
    assert_eq!(notices[0].asset_id, 20);
    assert_eq!(notices[0].button_label, "Buy");
    assert_eq!(notices[0].button_payload, "2");
    assert_eq!(notices[0].caption, gift_caption(&gift(2, Some(20))));
    assert_eq!(notices[1].gift_id, -4);
    assert_eq!(notices[1].asset_id, 40);
    assert_eq!(notices[1].button_payload, "-4");
    assert!(notify_gifts(&vec![]).is_empty());
}

#[test]
fn status_keeps_its_kind() {
    assert_eq!(
        GiftBuyStatus::from_attempt(AttemptStatus::FormError, "a".to_string()),
        GiftBuyStatus::PaymentFormError("a".to_string())
    );
    assert_eq!(
        GiftBuyStatus::from_attempt(AttemptStatus::ConfirmationError, "b".to_string()),
        GiftBuyStatus::SendStarsFormError("b".to_string())
    );
    assert_eq!(GiftBuyStatus::from_attempt(AttemptStatus::Success, "c".to_string()), GiftBuyStatus::Success);
    assert_eq!(GiftBuyStatus::PaymentFormError("a".to_string()).attempt_status(), AttemptStatus::FormError);
    assert_eq!(
        GiftBuyStatus::SendStarsFormError("a".to_string()).attempt_status(),
        AttemptStatus::ConfirmationError
    );
    assert_eq!(GiftBuyStatus::Success.attempt_status(), AttemptStatus::Success);
}

#[test]
fn picture_chunk_limit() {
    assert_eq!(GET_FILE_LIMIT_MAX, 1_047_552);
    assert_eq!(picture_thumb_size(), "s");
}

#[test]
fn errors_in_words() {
    assert_eq!(Error::GiftPriceNotFound(2).message(), "gift price not found (gift_id = 2)");
    assert_eq!(Error::UnexpectedNotModified.message(), "unexpected not modified");
    assert_eq!(Error::ChatNotFound("shop".to_string()).message(), "chat not found (username = shop)");
    assert_eq!(Error::ChatIsNotChannel.message(), "chat is not a channel");
    assert_eq!(Error::ChannelNotAccessible(-100).message(), "channel not accesible (channel_id = -100)");
    assert_eq!(Error::Engine(EngineFailure::BalanceUnavailable).message(), "balance not available");
    assert_eq!(
        Error::Engine(EngineFailure::ReportUndeliverable).message(),
        "purchase report not delivered"
    );
}

#[test]
fn integers_are_read_like_the_standard_library_reads_them() {
    let texts = [
        "", "+", "-", "0", "-0", "+0", "7", "+7", "-7", "007", "-007", "12a", "a12", "1 2", " 12", "12 ",
        "1.5", "--1", "+-1", "-+1", "1-", "9223372036854775807", "9223372036854775808",
        "-9223372036854775808", "-9223372036854775809", "+9223372036854775807",
        "00000000000000000000000000000000000042", "18446744073709551616", "99999999999999999999999",
        "-99999999999999999999999", "\u{661}\u{662}", "\u{2212}5", "5\u{fe0f}", "1_000", "0x10", "1e3",
    ];
    for text in texts {
        assert_eq!(parse_i64(text), text.parse::<i64>().ok(), "{:?}", text);
    }
}

#[test]
fn written_integers_are_read_back() {
    for i in [0i64, 1, -1, 10, -10, 99, 100, 5922589474136494556, i64::MAX, i64::MIN, i64::MIN + 1] {
        assert_eq!(parse_i64(&decimal_i64(i)), Some(i));
    }
}

#[test]
fn one_reached_recipient_is_enough() {
    assert!(!all_deliveries_failed(&vec![]));
    assert!(!all_deliveries_failed(&vec![true]));
    assert!(!all_deliveries_failed(&vec![false, true, false]));
    assert!(all_deliveries_failed(&vec![false]));
    assert!(all_deliveries_failed(&vec![false, false, false]));
}
