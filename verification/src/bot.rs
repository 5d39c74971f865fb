//! The operators' side: who may register a chat, and what a pressed button
//! sets in motion.

use crate::text::{parse_i64, parsed_i64};
use vstd::prelude::*;
use vstd::string::*;

verus! {

/// An inbound event, reduced to what the decisions read.
#[derive(Clone, Debug, PartialEq, Eq)]
pub enum Update {
    /// A message, with its sender's username where it has one.
    Message { from_username: Option<String>, chat_id: i64 },
    /// A pressed button, with the payload it carried.
    CallbackQuery { data: Option<String> },
    /// Anything else.
    Other,
}

/// What an inbound event calls for.
#[derive(Clone, Debug, PartialEq, Eq)]
pub enum Reaction {
    /// Tell the chat that its sender is no admin.
    RejectSender { chat_id: i64 },
    /// Store the chat as a recipient, then confirm as
    /// [`registration_reply`] says.
    RegisterChat { chat_id: i64 },
    /// Acknowledge the button and run one purchase round for these gifts,
    /// with prices still to be fetched.
    Buy { gift_ids: Vec<i64> },
    /// Nothing.
    Ignore,
}

/// How storing a chat went.
#[derive(Clone, Copy, Debug, PartialEq, Eq)]
pub enum Registration {
    Inserted,
    /// The chat was stored before. This is no failure.
    AlreadyRegistered,
    Failed,
}

/// Whether the sender is one of the admins. A sender without a username
/// never is.
pub open spec fn is_admin(admin_usernames: Seq<String>, from_username: Option<String>) -> bool {
    match from_username {
        Some(name) => exists|i: int|
            0 <= i < admin_usernames.len() && (#[trigger] admin_usernames[i])@ == name@,
        None => false,
    }
}

/// What a message calls for.
pub open spec fn message_reaction(
    admin_usernames: Seq<String>,
    from_username: Option<String>,
    chat_id: i64,
) -> Reaction {
    if is_admin(admin_usernames, from_username) {
        Reaction::RegisterChat { chat_id }
    } else {
        Reaction::RejectSender { chat_id }
    }
}

/// Whether `reaction` is what a pressed button calls for, `parsed` being
/// what its payload reads as, if it has one that reads as a number.
pub open spec fn is_callback_reaction(parsed: Option<i64>, reaction: Reaction) -> bool {
    match parsed {
        Some(gift_id) => reaction matches Reaction::Buy { gift_ids } && gift_ids@ == seq![gift_id],
        None => reaction == Reaction::Ignore,
    }
}

/// What the payload of a pressed button reads as.
pub open spec fn callback_gift(data: Option<String>) -> Option<i64> {
    match data {
        Some(text) => parsed_i64(text@),
        None => None,
    }
}

/// Decides on a message: an admin's chat is registered, anyone else is
/// turned away.
pub fn on_message(admin_usernames: &Vec<String>, from_username: &Option<String>, chat_id: i64) -> (reaction:
    Reaction)
    ensures
        reaction == message_reaction(admin_usernames@, *from_username, chat_id),
{
    match from_username {
        Some(name) => {
            let mut i: usize = 0;
            while i < admin_usernames.len()
                invariant
                    i <= admin_usernames.len(),
                    *from_username == Some(*name),
                    forall|k: int| 0 <= k < i ==> (#[trigger] admin_usernames@[k])@ != name@,
                decreases admin_usernames.len() - i,
            {
                if admin_usernames[i] == *name {
                    proof {
                        assert(admin_usernames@[i as int]@ == name@);
                    }
                    return Reaction::RegisterChat { chat_id };
                }
                i = i + 1;
            }
            Reaction::RejectSender { chat_id }
        },
        None => Reaction::RejectSender { chat_id },
    }
}

/// Decides on a pressed button whose payload has been read: a gift
/// identifier starts a purchase round for that one gift, anything else is
/// ignored.
pub fn on_callback(parsed: Option<i64>) -> (reaction: Reaction)
    ensures
        is_callback_reaction(parsed, reaction),
{
    match parsed {
        Some(gift_id) => {
            let mut gift_ids: Vec<i64> = Vec::new();
            gift_ids.push(gift_id);
            Reaction::Buy { gift_ids }
        },
        None => Reaction::Ignore,
    }
}

/// Decides on an inbound event.
pub fn on_update(admin_usernames: &Vec<String>, update: &Update) -> (reaction: Reaction)
    ensures
        match *update {
            Update::Message { from_username, chat_id } => reaction == message_reaction(
                admin_usernames@,
                from_username,
                chat_id,
            ),
            Update::CallbackQuery { data } => is_callback_reaction(callback_gift(data), reaction),
            Update::Other => reaction == Reaction::Ignore,
        },
{
    match update {
        Update::Message { from_username, chat_id } => on_message(
            admin_usernames,
            from_username,
            *chat_id,
        ),
        Update::CallbackQuery { data } => match data {
            Some(text) => on_callback(parse_i64(text.as_str())),
            None => on_callback(None),
        },
        Update::Other => Reaction::Ignore,
    }
}

/// The confirmation to send once a chat was stored. A chat that was stored
/// before is confirmed like a new one; a failure is not confirmed.
pub fn registration_reply(registration: Registration) -> (reply: Option<&'static str>)
    ensures
        reply is Some <==> !(registration is Failed),
        reply matches Some(text) ==> text@ == "Added to trusted chats"@,
{
    match registration {
        Registration::Inserted | Registration::AlreadyRegistered => Some("Added to trusted chats"),
        Registration::Failed => None,
    }
}

/// The answer to a sender who is no admin.
pub fn rejection_reply() -> (reply: &'static str)
    ensures
        reply@ == "User not in admins list"@,
{
    "User not in admins list"
}

} // verus!
