//! The role of a node, and the roles its peers can hold relative to it.

use vstd::prelude::*;

verus! {

/// What a node is: a consensus participant or a full node.
#[derive(Clone, Copy, Debug, PartialEq, Eq, Structural, Hash)]
pub enum RoleType {
    Validator,
    FullNode,
}

impl RoleType {
    /// The tag under which the role is written in configuration and in logs.
    pub open spec fn tag(self) -> Seq<char> {
        match self {
            RoleType::Validator => "validator"@,
            RoleType::FullNode => "full_node"@,
        }
    }

    pub fn is_validator(self) -> (b: bool)
        ensures
            b == (self == RoleType::Validator),
    {
        match self {
            RoleType::Validator => true,
            RoleType::FullNode => false,
        }
    }

    pub fn as_str(self) -> (s: &'static str)
        ensures
            s@ == self.tag(),
    {
        match self {
            RoleType::Validator => "validator",
            RoleType::FullNode => "full_node",
        }
    }

    /// The tag as an owned string.
    pub fn to_string(&self) -> (s: String)
        ensures
            s@ == self.tag(),
    {
        self.as_str().to_owned()
    }
}

/// The trust tier of a peer within one network, from the most trusted down.
#[derive(Clone, Copy, Debug, PartialEq, Eq, Structural, PartialOrd, Ord, Hash)]
pub enum PeerRole {
    Validator,
    PreferredUpstream,
    Upstream,
    ValidatorFullNode,
    Downstream,
    Known,
    Unknown,
}

} // verus!
