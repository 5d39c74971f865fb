//! Where bought gifts are sent: the buying account itself, or a channel that
//! is known by username until one lookup has resolved it.

use crate::error::Error;
use vstd::prelude::*;

verus! {

/// A channel as purchases address it.
#[derive(Clone, Copy, Debug, PartialEq, Eq, Structural)]
pub struct ChannelPeer {
    pub channel_id: i64,
    pub access_hash: i64,
}

/// What a username lookup found.
#[derive(Clone, Copy, Debug, PartialEq, Eq)]
pub enum FoundChat {
    User,
    Group,
    Channel { id: i64, access_hash: Option<i64> },
}

/// A channel by username, or already resolved.
#[derive(Clone, Debug, PartialEq, Eq)]
pub enum MaybeResolvedChannel {
    Username(String),
    Peer(ChannelPeer),
}

/// Where a purchase round sends its gifts.
#[derive(Clone, Debug, PartialEq, Eq)]
pub enum BuyGiftsDestination {
    PeerSelf,
    Channel(MaybeResolvedChannel),
}

/// A destination after resolution.
#[derive(Clone, Copy, Debug, PartialEq, Eq, Structural)]
pub enum DestinationPeer {
    PeerSelf,
    Channel(ChannelPeer),
}

/// The channel that a lookup of `username` resolves to, or the reason why
/// there is none.
pub open spec fn lookup_outcome(username: String, found: Option<FoundChat>) -> Result<
    ChannelPeer,
    Error,
> {
    match found {
        None => Err(Error::ChatNotFound(username)),
        Some(FoundChat::Channel { id, access_hash: Some(hash) }) => Ok(
            ChannelPeer { channel_id: id, access_hash: hash },
        ),
        Some(FoundChat::Channel { id, access_hash: None }) => Err(Error::ChannelNotAccessible(id)),
        Some(_) => Err(Error::ChatIsNotChannel),
    }
}

impl MaybeResolvedChannel {
    /// Whether resolving takes a lookup of the username.
    pub open spec fn needs_lookup(self) -> bool {
        self is Username
    }

    /// The resolved channel: the peer itself where it is known, else what
    /// the lookup gives.
    pub open spec fn resolution(self, found: Option<FoundChat>) -> Result<ChannelPeer, Error> {
        match self {
            MaybeResolvedChannel::Username(username) => lookup_outcome(username, found),
            MaybeResolvedChannel::Peer(peer) => Ok(peer),
        }
    }

    /// The username to look up before [`MaybeResolvedChannel::resolve`] is
    /// called, if a lookup is needed at all.
    pub fn username_to_look_up(&self) -> (username: Option<String>)
        ensures
            username is Some <==> self.needs_lookup(),
            username matches Some(u) ==> *self == MaybeResolvedChannel::Username(u),
    {
        match self {
            MaybeResolvedChannel::Username(username) => Some(username.clone()),
            MaybeResolvedChannel::Peer(_) => None,
        }
    }

    /// Resolves the channel. `found` is what the lookup of the username
    /// returned; it is not read where the channel is resolved already.
    pub fn resolve(&self, found: Option<FoundChat>) -> (outcome: Result<ChannelPeer, Error>)
        ensures
            outcome == self.resolution(found),
    {
        match self {
            MaybeResolvedChannel::Username(username) => match found {
                None => Err(Error::ChatNotFound(username.clone())),
                Some(FoundChat::Channel { id, access_hash }) => match access_hash {
                    Some(hash) => Ok(ChannelPeer { channel_id: id, access_hash: hash }),
                    None => Err(Error::ChannelNotAccessible(id)),
                },
                Some(_) => Err(Error::ChatIsNotChannel),
            },
            MaybeResolvedChannel::Peer(peer) => Ok(*peer),
        }
    }

    /// The same channel in resolved form.
    pub fn as_resolved(&self, found: Option<FoundChat>) -> (outcome: Result<
        MaybeResolvedChannel,
        Error,
    >)
        ensures
            outcome == match self.resolution(found) {
                Ok(peer) => Ok::<MaybeResolvedChannel, Error>(MaybeResolvedChannel::Peer(peer)),
                Err(e) => Err(e),
            },
    {
        match self.resolve(found) {
            Ok(peer) => Ok(MaybeResolvedChannel::Peer(peer)),
            Err(e) => Err(e),
        }
    }
}

impl BuyGiftsDestination {
    /// The peer that this destination stands for.
    pub open spec fn resolution(self, found: Option<FoundChat>) -> Result<DestinationPeer, Error> {
        match self {
            BuyGiftsDestination::PeerSelf => Ok(DestinationPeer::PeerSelf),
            BuyGiftsDestination::Channel(channel) => match channel.resolution(found) {
                Ok(peer) => Ok(DestinationPeer::Channel(peer)),
                Err(e) => Err(e),
            },
        }
    }

    /// The username to look up before [`BuyGiftsDestination::resolve`] is
    /// called. The account itself and a resolved channel need none.
    pub fn username_to_look_up(&self) -> (username: Option<String>)
        ensures
            username is Some <==> (self matches BuyGiftsDestination::Channel(c) && c.needs_lookup()),
            username matches Some(u) ==> *self == BuyGiftsDestination::Channel(
                MaybeResolvedChannel::Username(u),
            ),
    {
        match self {
            BuyGiftsDestination::PeerSelf => None,
            BuyGiftsDestination::Channel(channel) => channel.username_to_look_up(),
        }
    }

    /// Resolves the destination once for a whole purchase round. A failure
    /// here ends the round before anything is bought.
    pub fn resolve(&self, found: Option<FoundChat>) -> (outcome: Result<DestinationPeer, Error>)
        ensures
            outcome == self.resolution(found),
    {
        match self {
            BuyGiftsDestination::PeerSelf => Ok(DestinationPeer::PeerSelf),
            BuyGiftsDestination::Channel(channel) => match channel.resolve(found) {
                Ok(peer) => Ok(DestinationPeer::Channel(peer)),
                Err(e) => Err(e),
            },
        }
    }
}

} // verus!
