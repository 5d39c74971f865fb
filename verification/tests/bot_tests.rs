use gift_buyer::bot::{
    on_callback, on_message, on_update, registration_reply, rejection_reply, Reaction, Registration,
    Update,
};
use gift_buyer::notify::notify_gifts;
use gift_buyer::catalog::CatalogItem;

fn admins() -> Vec<String> {
    vec!["alice".to_string(), "bob".to_string()]
}

#[test]
fn admin_message_registers_the_chat() {
    let update = Update::Message { from_username: Some("bob".to_string()), chat_id: 77 };
    assert_eq!(on_update(&admins(), &update), Reaction::RegisterChat { chat_id: 77 });
}

#[test]
fn stranger_is_turned_away() {
    let update = Update::Message { from_username: Some("mallory".to_string()), chat_id: 77 };
    assert_eq!(on_update(&admins(), &update), Reaction::RejectSender { chat_id: 77 });
    assert_eq!(on_message(&admins(), &Some("Alice".to_string()), 1), Reaction::RejectSender { chat_id: 1 });
    assert_eq!(on_message(&vec![], &Some("alice".to_string()), 1), Reaction::RejectSender { chat_id: 1 });
    assert_eq!(rejection_reply(), "User not in admins list");
}

#[test]
fn sender_without_username_is_turned_away() {
    let update = Update::Message { from_username: None, chat_id: -5 };
    assert_eq!(on_update(&admins(), &update), Reaction::RejectSender { chat_id: -5 });
}

#[test]
fn pressed_button_buys_one_gift() {
    let update = Update::CallbackQuery { data: Some("5922589474136494556".to_string()) };
    assert_eq!(on_update(&admins(), &update), Reaction::Buy { gift_ids: vec![5922589474136494556] });
    let negative = Update::CallbackQuery { data: Some("-12".to_string()) };
    assert_eq!(on_update(&admins(), &negative), Reaction::Buy { gift_ids: vec![-12] });
}

#[test]
fn button_without_a_gift_is_ignored() {
    assert_eq!(on_update(&admins(), &Update::CallbackQuery { data: None }), Reaction::Ignore);
    for text in ["", "buy", "12a", " 12", "9223372036854775808", "1.5"] {
        let update = Update::CallbackQuery { data: Some(text.to_string()) };
        assert_eq!(on_update(&admins(), &update), Reaction::Ignore);
    }
    assert_eq!(on_callback(None), Reaction::Ignore);
    assert_eq!(on_callback(Some(3)), Reaction::Buy { gift_ids: vec![3] });
}

#[test]
fn other_updates_are_ignored() {
    assert_eq!(on_update(&admins(), &Update::Other), Reaction::Ignore);
}

#[test]
fn button_payload_reads_back_as_the_gift() {
    let gift = CatalogItem {
        id: -9007199254740993,
        price: 1,
        limited: true,
        total_supply: Some(1),
        remaining_supply: Some(1),
        sold_out: false,
        asset_id: Some(5),
    };
    let notices = notify_gifts(&vec![gift]);
    let pressed = Update::CallbackQuery { data: Some(notices[0].button_payload.clone()) };
    assert_eq!(on_update(&admins(), &pressed), Reaction::Buy { gift_ids: vec![gift.id] });
}

#[test]
fn registering_twice_is_no_failure() {
    assert_eq!(registration_reply(Registration::Inserted), Some("Added to trusted chats"));
    assert_eq!(registration_reply(Registration::AlreadyRegistered), Some("Added to trusted chats"));
    assert_eq!(registration_reply(Registration::Failed), None);
}
