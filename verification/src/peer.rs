//! Peers as the store keeps them.

use vstd::prelude::*;

verus! {

/// One row of the peer table: what a username was resolved to.
#[derive(Clone, Copy, Debug, PartialEq, Eq)]
pub struct SavedPeer {
    peer_type: i64,
    peer_id: i64,
    access_hash: Option<i64>,
}

impl SavedPeer {
    pub closed spec fn spec_peer_type(&self) -> i64 {
        self.peer_type
    }

    pub closed spec fn spec_peer_id(&self) -> i64 {
        self.peer_id
    }

    pub closed spec fn spec_access_hash(&self) -> Option<i64> {
        self.access_hash
    }

    pub fn new(peer_type: i64, peer_id: i64, access_hash: Option<i64>) -> (peer: SavedPeer)
        ensures
            peer.spec_peer_type() == peer_type,
            peer.spec_peer_id() == peer_id,
            peer.spec_access_hash() == access_hash,
    {
        SavedPeer { peer_type, peer_id, access_hash }
    }

    #[verifier::when_used_as_spec(spec_peer_type)]
    pub fn peer_type(&self) -> (t: i64)
        ensures
            t == self.spec_peer_type(),
    {
        self.peer_type
    }

    #[verifier::when_used_as_spec(spec_peer_id)]
    pub fn peer_id(&self) -> (id: i64)
        ensures
            id == self.spec_peer_id(),
    {
        self.peer_id
    }

    #[verifier::when_used_as_spec(spec_access_hash)]
    pub fn access_hash(&self) -> (hash: Option<i64>)
        ensures
            hash == self.spec_access_hash(),
    {
        self.access_hash
    }
}

} // verus!
