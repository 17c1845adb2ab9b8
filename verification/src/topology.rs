//! Which peer roles a node treats as upstream and as downstream on each
//! network, most preferred first.
//!
//! | network   | node      | upstream                                       | downstream                                      |
//! |-----------|-----------|------------------------------------------------|-------------------------------------------------|
//! | Validator | any       | Validator                                      | Validator                                       |
//! | Public    | any       | PreferredUpstream, Upstream, ValidatorFullNode | ValidatorFullNode, Downstream, Known, Unknown   |
//! | Vfn       | Validator | none                                           | ValidatorFullNode                               |
//! | Vfn       | FullNode  | Validator                                      | none                                            |
//!
//! An empty list is an answer, not a failure: no peer role is eligible in
//! that direction, and the caller does not try it.

use crate::network_id::NetworkId;
use crate::role::{PeerRole, RoleType};
use vstd::prelude::*;

verus! {

impl NetworkId {
    /// The upstream column of the table.
    pub open spec fn upstream_priority(self, role: RoleType) -> Seq<PeerRole> {
        match (self, role) {
            (NetworkId::Validator, _) => seq![PeerRole::Validator],
            (NetworkId::Public, _) => seq![
                PeerRole::PreferredUpstream,
                PeerRole::Upstream,
                PeerRole::ValidatorFullNode,
            ],
            (NetworkId::Vfn, RoleType::Validator) => seq![],
            (NetworkId::Vfn, RoleType::FullNode) => seq![PeerRole::Validator],
        }
    }

    /// The downstream column of the table.
    pub open spec fn downstream_priority(self, role: RoleType) -> Seq<PeerRole> {
        match (self, role) {
            (NetworkId::Validator, _) => seq![PeerRole::Validator],
            (NetworkId::Public, _) => seq![
                PeerRole::ValidatorFullNode,
                PeerRole::Downstream,
                PeerRole::Known,
                PeerRole::Unknown,
            ],
            (NetworkId::Vfn, RoleType::Validator) => seq![PeerRole::ValidatorFullNode],
            (NetworkId::Vfn, RoleType::FullNode) => seq![],
        }
    }

    /// Roles for a prioritization of relative upstreams.
    pub fn upstream_roles(&self, role: &RoleType) -> (roles: &'static [PeerRole])
        ensures
            roles@ == self.upstream_priority(*role),
    {
        match self {
            NetworkId::Validator => &[PeerRole::Validator],
            NetworkId::Public => &[
                PeerRole::PreferredUpstream,
                PeerRole::Upstream,
                PeerRole::ValidatorFullNode,
            ],
            NetworkId::Vfn => match role {
                RoleType::Validator => &[],
                RoleType::FullNode => &[PeerRole::Validator],
            },
        }
    }

    /// Roles for a prioritization of relative downstreams.
    pub fn downstream_roles(&self, role: &RoleType) -> (roles: &'static [PeerRole])
        ensures
            roles@ == self.downstream_priority(*role),
    {
        match self {
            NetworkId::Validator => &[PeerRole::Validator],
            // A validator's full node is always accepted, so that a node can
            // fall back on one.
            NetworkId::Public => &[
                PeerRole::ValidatorFullNode,
                PeerRole::Downstream,
                PeerRole::Known,
                PeerRole::Unknown,
            ],
            NetworkId::Vfn => match role {
                RoleType::Validator => &[PeerRole::ValidatorFullNode],
                RoleType::FullNode => &[],
            },
        }
    }
}

/// Both columns of the table, row by row, for every network and every node
/// role.
pub proof fn lemma_role_table(role: RoleType)
    ensures
        NetworkId::Validator.upstream_priority(role) == seq![PeerRole::Validator],
        NetworkId::Validator.downstream_priority(role) == seq![PeerRole::Validator],
        NetworkId::Public.upstream_priority(role) == seq![
            PeerRole::PreferredUpstream,
            PeerRole::Upstream,
            PeerRole::ValidatorFullNode,
        ],
        NetworkId::Public.downstream_priority(role) == seq![
            PeerRole::ValidatorFullNode,
            PeerRole::Downstream,
            PeerRole::Known,
            PeerRole::Unknown,
        ],
        NetworkId::Vfn.upstream_priority(RoleType::Validator) == Seq::<PeerRole>::empty(),
        NetworkId::Vfn.downstream_priority(RoleType::Validator) == seq![
            PeerRole::ValidatorFullNode,
        ],
        NetworkId::Vfn.upstream_priority(RoleType::FullNode) == seq![PeerRole::Validator],
        NetworkId::Vfn.downstream_priority(RoleType::FullNode) == Seq::<PeerRole>::empty(),
{
}

/// The relay network runs one way. A validator on it has downstream peers
/// and no upstream peers, a full node on it has upstream peers and no
/// downstream peers, and on no other network is either direction closed.
pub proof fn lemma_relay_is_directional(id: NetworkId, role: RoleType)
    ensures
        id.upstream_priority(role).len() == 0 <==> id == NetworkId::Vfn && role
            == RoleType::Validator,
        id.downstream_priority(role).len() == 0 <==> id == NetworkId::Vfn && role
            == RoleType::FullNode,
        id.upstream_priority(role).len() + id.downstream_priority(role).len() > 0,
{
}

/// No role is listed twice, so a role's position in a list is its priority.
pub proof fn lemma_roles_listed_once(id: NetworkId, role: RoleType)
    ensures
        id.upstream_priority(role).no_duplicates(),
        id.downstream_priority(role).no_duplicates(),
{
}

} // verus!
