//! The key under which a node keeps what it knows of a peer.

use crate::network_id::NetworkId;
use crate::peer::{
    bytes_before, lemma_bytes_before_transitive, lemma_peer_order_total, short_hex, PeerId,
};
use std::cmp::Ordering;
use vstd::prelude::*;
use vstd::std_specs::cmp::PartialOrdSpec;

verus! {

/// A peer on a network. The same peer on two networks is two keys.
///
/// Keys are ordered by network first and by peer second.
#[derive(Clone, Copy, Debug, Eq, Ord, Hash)]
pub struct PeerNetworkId {
    network_id: NetworkId,
    peer_id: PeerId,
}

impl PeerNetworkId {
    pub closed spec fn spec_network_id(&self) -> NetworkId {
        self.network_id
    }

    pub closed spec fn spec_peer_id(&self) -> PeerId {
        self.peer_id
    }

    /// How the key is written in logs: the network's tag, a colon, and the
    /// short form of the peer.
    pub open spec fn text(&self) -> Seq<char> {
        self.network_id().tag() + ":"@ + short_hex(self.peer_id()@)
    }

    pub fn new(network_id: NetworkId, peer_id: PeerId) -> (key: PeerNetworkId)
        ensures
            key.network_id() == network_id,
            key.peer_id() == peer_id,
    {
        PeerNetworkId { network_id, peer_id }
    }

    #[verifier::when_used_as_spec(spec_network_id)]
    pub fn network_id(&self) -> (id: NetworkId)
        ensures
            id == self.network_id(),
    {
        self.network_id
    }

    #[verifier::when_used_as_spec(spec_peer_id)]
    pub fn peer_id(&self) -> (id: PeerId)
        ensures
            id == self.peer_id(),
    {
        self.peer_id
    }

    /// A key for a fresh peer on the public network.
    pub fn random() -> (key: PeerNetworkId)
        ensures
            key.network_id() == NetworkId::Public,
    {
        PeerNetworkId::new(NetworkId::Public, PeerId::random())
    }

    /// A key for a fresh peer on the validator network.
    pub fn random_validator() -> (key: PeerNetworkId)
        ensures
            key.network_id() == NetworkId::Validator,
    {
        PeerNetworkId::new(NetworkId::Validator, PeerId::random())
    }

    /// The key as it is written in logs.
    pub fn to_string(&self) -> (text: String)
        ensures
            text@ == self.text(),
    {
        let mut text: String = self.network_id.as_str().to_owned();
        text.append(":");
        let short: String = self.peer_id.short_str();
        text.append(short.as_str());
        text
    }

    /// Whether `self` stands before `other`: on a lower network, or on the
    /// same network with the lower peer.
    pub open spec fn before(&self, other: &PeerNetworkId) -> bool {
        ||| self.network_id().rank() < other.network_id().rank()
        ||| self.network_id() == other.network_id() && bytes_before(
            self.peer_id()@,
            other.peer_id()@,
        )
    }
}

impl PartialEq for PeerNetworkId {
    fn eq(&self, other: &Self) -> (equal: bool) {
        self.network_id == other.network_id && self.peer_id == other.peer_id
    }
}

impl vstd::std_specs::cmp::PartialEqSpecImpl for PeerNetworkId {
    open spec fn obeys_eq_spec() -> bool {
        true
    }

    open spec fn eq_spec(&self, other: &Self) -> bool {
        *self == *other
    }
}

impl PartialOrd for PeerNetworkId {
    fn partial_cmp(&self, other: &Self) -> (r: Option<Ordering>) {
        match self.network_id.partial_cmp(&other.network_id) {
            Some(Ordering::Equal) => self.peer_id.partial_cmp(&other.peer_id),
            decided => decided,
        }
    }
}

impl vstd::std_specs::cmp::PartialOrdSpecImpl for PeerNetworkId {
    open spec fn obeys_partial_cmp_spec() -> bool {
        true
    }

    open spec fn partial_cmp_spec(&self, other: &Self) -> Option<Ordering> {
        if *self == *other {
            Some(Ordering::Equal)
        } else if self.before(other) {
            Some(Ordering::Less)
        } else {
            Some(Ordering::Greater)
        }
    }
}

/// Two keys are equal exactly when they name the same peer on the same
/// network.
pub proof fn lemma_key_by_fields(a: PeerNetworkId, b: PeerNetworkId)
    ensures
        a == b <==> a.network_id() == b.network_id() && a.peer_id() == b.peer_id(),
{
}

/// Of two keys, either they are equal or exactly one stands before the
/// other.
pub proof fn lemma_key_order_total(a: PeerNetworkId, b: PeerNetworkId)
    ensures
        a == b || a.before(&b) || b.before(&a),
        !(a == b && a.before(&b)),
        !(a.before(&b) && b.before(&a)),
        a.partial_cmp_spec(&b) == Some(Ordering::Less) <==> a.before(&b),
        a.partial_cmp_spec(&b) == Some(Ordering::Greater) <==> b.before(&a),
        a.partial_cmp_spec(&b) == Some(Ordering::Equal) <==> a == b,
{
    lemma_peer_order_total(a.peer_id(), b.peer_id());
}

/// The order of keys is transitive.
pub proof fn lemma_key_order_transitive(a: PeerNetworkId, b: PeerNetworkId, c: PeerNetworkId)
    requires
        a.before(&b),
        b.before(&c),
    ensures
        a.before(&c),
{
    if a.network_id() == b.network_id() && b.network_id() == c.network_id() {
        a.peer_id().lemma_len();
        b.peer_id().lemma_len();
        c.peer_id().lemma_len();
        lemma_bytes_before_transitive(a.peer_id()@, b.peer_id()@, c.peer_id()@);
    }
}

/// Keys on different networks are ordered as their networks are, whatever
/// the peers.
pub proof fn lemma_key_order_follows_network(a: PeerNetworkId, b: PeerNetworkId)
    requires
        a.network_id().rank() < b.network_id().rank(),
    ensures
        a.partial_cmp_spec(&b) == Some(Ordering::Less),
        a != b,
{
}

} // verus!
