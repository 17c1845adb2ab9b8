//! What all networking code of one network participation has in common, for
//! logging.

use crate::network_id::NetworkId;
use crate::peer::{hex, short_hex, PeerId};
use crate::role::RoleType;
use vstd::prelude::*;
use vstd::std_specs::cmp::PartialEqSpecImpl;

verus! {

/// The role of the node, the network, and the node's own identifier on it.
/// Made once when the node joins a network and never changed.
#[derive(Clone, Copy, Debug, Eq)]
pub struct NetworkContext {
    role: RoleType,
    network_id: NetworkId,
    peer_id: PeerId,
}

/// A context as a structured document holds it: three fields of text, under
/// the names `role`, `network_id` and `peer_id`.
#[derive(Debug, PartialEq, Eq)]
pub struct ContextDocument {
    pub role: String,
    pub network_id: String,
    pub peer_id: String,
}

impl NetworkContext {
    pub closed spec fn spec_role(&self) -> RoleType {
        self.role
    }

    pub closed spec fn spec_network_id(&self) -> NetworkId {
        self.network_id
    }

    pub closed spec fn spec_peer_id(&self) -> PeerId {
        self.peer_id
    }

    /// How the context is written in logs: role, network tag and the short
    /// form of the peer, separated by commas, in square brackets.
    pub open spec fn text(&self) -> Seq<char> {
        "["@ + self.role().tag() + ","@ + self.network_id().tag() + ","@ + short_hex(
            self.peer_id()@,
        ) + "]"@
    }

    pub fn new(role: RoleType, network_id: NetworkId, peer_id: PeerId) -> (context:
        NetworkContext)
        ensures
            context.role() == role,
            context.network_id() == network_id,
            context.peer_id() == peer_id,
    {
        NetworkContext { role, network_id, peer_id }
    }

    #[verifier::when_used_as_spec(spec_role)]
    pub fn role(&self) -> (role: RoleType)
        ensures
            role == self.role(),
    {
        self.role
    }

    #[verifier::when_used_as_spec(spec_network_id)]
    pub fn network_id(&self) -> (id: NetworkId)
        ensures
            id == self.network_id(),
    {
        self.network_id
    }

    #[verifier::when_used_as_spec(spec_peer_id)]
    pub fn peer_id(&self) -> (id: PeerId)
        ensures
            id == self.peer_id(),
    {
        self.peer_id
    }

    /// The context of a validator on the validator network, for a given
    /// identifier.
    pub fn mock_with_peer_id(peer_id: PeerId) -> (context: NetworkContext)
        ensures
            context.role() == RoleType::Validator,
            context.network_id() == NetworkId::Validator,
            context.peer_id() == peer_id,
    {
        NetworkContext::new(RoleType::Validator, NetworkId::Validator, peer_id)
    }

    /// The context of a validator on the validator network, for a fresh
    /// identifier.
    pub fn mock() -> (context: NetworkContext)
        ensures
            context.role() == RoleType::Validator,
            context.network_id() == NetworkId::Validator,
    {
        NetworkContext::new(RoleType::Validator, NetworkId::Validator, PeerId::random())
    }

    /// The context as a structured document holds it: the role and the
    /// network by their tags, the peer in hexadecimal.
    pub fn document(&self) -> (document: ContextDocument)
        ensures
            document.role@ == self.role().tag(),
            document.network_id@ == self.network_id().tag(),
            document.peer_id@ == hex(self.peer_id()@),
    {
        ContextDocument {
            role: self.role.as_str().to_owned(),
            network_id: self.network_id.as_str().to_owned(),
            peer_id: self.peer_id.to_hex(),
        }
    }

    /// The context as it is written in logs.
    pub fn to_string(&self) -> (text: String)
        ensures
            text@ == self.text(),
    {
        let mut text: String = "[".to_owned();
        text.append(self.role.as_str());
        text.append(",");
        text.append(self.network_id.as_str());
        text.append(",");
        let short: String = self.peer_id.short_str();
        text.append(short.as_str());
        text.append("]");
        text
    }
}

impl PartialEq for NetworkContext {
    fn eq(&self, other: &Self) -> (equal: bool) {
        self.role == other.role && self.network_id == other.network_id && self.peer_id
            == other.peer_id
    }
}

impl PartialEqSpecImpl for NetworkContext {
    open spec fn obeys_eq_spec() -> bool {
        true
    }

    open spec fn eq_spec(&self, other: &Self) -> bool {
        *self == *other
    }
}

} // verus!
