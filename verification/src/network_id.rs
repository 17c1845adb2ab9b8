//! The logical networks a node can belong to.

use std::cmp::Ordering;
use vstd::prelude::*;
use vstd::std_specs::cmp::PartialOrdSpec;

verus! {

/// One of the three logical networks.
///
/// The variants are declared in ascending order: `Validator < Vfn < Public`.
/// A node takes part in at most one validator network and one relay network;
/// the public network is one network however many peers it has.
#[derive(Clone, Copy, Debug, PartialEq, Eq, Structural, Ord, Hash)]
pub enum NetworkId {
    Validator,
    Vfn,
    Public,
}

impl NetworkId {
    /// The place of the network in the order of tiers.
    pub open spec fn rank(self) -> int {
        match self {
            NetworkId::Validator => 0,
            NetworkId::Vfn => 1,
            NetworkId::Public => 2,
        }
    }

    /// The canonical tag of the network.
    pub open spec fn tag(self) -> Seq<char> {
        match self {
            NetworkId::Validator => "Validator"@,
            NetworkId::Public => "Public"@,
            NetworkId::Vfn => "vfn"@,
        }
    }

    /// The canonical tag in lowercase: the name under which the network is
    /// parsed.
    pub open spec fn lowercase_tag(self) -> Seq<char> {
        match self {
            NetworkId::Validator => "validator"@,
            NetworkId::Public => "public"@,
            NetworkId::Vfn => "vfn"@,
        }
    }

    /// The canonical tag as an owned string.
    pub fn to_string(&self) -> (s: String)
        ensures
            s@ == self.tag(),
    {
        self.as_str().to_owned()
    }

    /// The rank as a machine integer.
    pub fn ordinal(&self) -> (r: u8)
        ensures
            r == self.rank(),
    {
        match self {
            NetworkId::Validator => 0,
            NetworkId::Vfn => 1,
            NetworkId::Public => 2,
        }
    }

    pub fn is_vfn_network(&self) -> (b: bool)
        ensures
            b == (*self == NetworkId::Vfn),
    {
        *self == NetworkId::Vfn
    }

    pub fn is_validator_network(&self) -> (b: bool)
        ensures
            b == (*self == NetworkId::Validator),
    {
        *self == NetworkId::Validator
    }

    pub fn as_str(&self) -> (s: &'static str)
        ensures
            s@ == self.tag(),
    {
        match self {
            NetworkId::Validator => "Validator",
            NetworkId::Public => "Public",
            NetworkId::Vfn => "vfn",
        }
    }
}

/// Networks compare by rank.
impl PartialOrd for NetworkId {
    fn partial_cmp(&self, other: &Self) -> (r: Option<Ordering>) {
        let a: u8 = self.ordinal();
        let b: u8 = other.ordinal();
        if a < b {
            Some(Ordering::Less)
        } else if a == b {
            Some(Ordering::Equal)
        } else {
            Some(Ordering::Greater)
        }
    }
}

impl vstd::std_specs::cmp::PartialOrdSpecImpl for NetworkId {
    open spec fn obeys_partial_cmp_spec() -> bool {
        true
    }

    open spec fn partial_cmp_spec(&self, other: &Self) -> Option<Ordering> {
        if self.rank() < other.rank() {
            Some(Ordering::Less)
        } else if self.rank() == other.rank() {
            Some(Ordering::Equal)
        } else {
            Some(Ordering::Greater)
        }
    }
}

/// The comparison of networks is a total order that follows the rank, and it
/// puts the validator network below the relay network and the relay network
/// below the public network.
pub proof fn lemma_network_order(a: NetworkId, b: NetworkId)
    ensures
        a.partial_cmp_spec(&b) == Some(Ordering::Less) <==> a.rank() < b.rank(),
        a.partial_cmp_spec(&b) == Some(Ordering::Equal) <==> a == b,
        a.partial_cmp_spec(&b) == Some(Ordering::Greater) <==> b.partial_cmp_spec(&a) == Some(
            Ordering::Less,
        ),
        NetworkId::Validator.partial_cmp_spec(&NetworkId::Vfn) == Some(Ordering::Less),
        NetworkId::Vfn.partial_cmp_spec(&NetworkId::Public) == Some(Ordering::Less),
        NetworkId::Validator.partial_cmp_spec(&NetworkId::Public) == Some(Ordering::Less),
{
}

/// The public network, for structures that must hold some network before
/// one is configured. It fills a field; it never means that no network was
/// set.
impl Default for NetworkId {
    fn default() -> (id: NetworkId)
        ensures
            id == NetworkId::Public,
    {
        NetworkId::Public
    }
}

/// Why a string names no network.
#[derive(Clone, Copy, Debug, PartialEq, Eq, Structural)]
pub enum ParseError {
    InvalidNetworkName,
}

impl ParseError {
    /// The error in words.
    pub open spec fn text(self) -> Seq<char> {
        match self {
            ParseError::InvalidNetworkName => "Invalid network name"@,
        }
    }

    pub fn message(&self) -> (s: &'static str)
        ensures
            s@ == self.text(),
    {
        match self {
            ParseError::InvalidNetworkName => "Invalid network name",
        }
    }
}

/// What `str::to_lowercase` makes of a string.
pub uninterp spec fn lowercase(s: Seq<char>) -> Seq<char>;

/// Calls `str::to_lowercase`, which maps each character to its lowercase
/// form as Unicode defines it. The contract gives that result a name and
/// says nothing else of it.
#[verifier::external_body]
fn to_lowercase(s: &str) -> (lowered: String)
    ensures
        lowered@ == lowercase(s@),
{
    s.to_lowercase()
}

/// The network that a lowercase name stands for.
pub open spec fn network_named(name: Seq<char>) -> Result<NetworkId, ParseError> {
    if name == "validator"@ {
        Ok(NetworkId::Validator)
    } else if name == "public"@ {
        Ok(NetworkId::Public)
    } else if name == "vfn"@ {
        Ok(NetworkId::Vfn)
    } else {
        Err(ParseError::InvalidNetworkName)
    }
}

impl NetworkId {
    /// Reads a name that is already in lowercase. Exactly three names are
    /// accepted.
    pub fn from_lowercase(name: &str) -> (parsed: Result<NetworkId, ParseError>)
        ensures
            parsed == network_named(name@),
    {
        let name: String = name.to_owned();
        if name == "validator".to_owned() {
            Ok(NetworkId::Validator)
        } else if name == "public".to_owned() {
            Ok(NetworkId::Public)
        } else if name == "vfn".to_owned() {
            Ok(NetworkId::Vfn)
        } else {
            Err(ParseError::InvalidNetworkName)
        }
    }

    /// Reads a name without regard to case: the name is put in lowercase and
    /// then read as `from_lowercase` reads it.
    pub fn from_str(s: &str) -> (parsed: Result<NetworkId, ParseError>)
        ensures
            parsed == network_named(lowercase(s@)),
    {
        let lowered: String = to_lowercase(s);
        NetworkId::from_lowercase(lowered.as_str())
    }
}

impl std::str::FromStr for NetworkId {
    type Err = ParseError;

    fn from_str(s: &str) -> (parsed: Result<NetworkId, ParseError>)
        ensures
            parsed == network_named(lowercase(s@)),
    {
        NetworkId::from_str(s)
    }
}

/// A lowercase name is accepted exactly when it is the lowercase tag of a
/// network, and it is then read as that network.
pub proof fn lemma_network_named(name: Seq<char>, id: NetworkId)
    ensures
        network_named(name) == Ok::<NetworkId, ParseError>(id) <==> name == id.lowercase_tag(),
        network_named(name) is Err <==> (forall|any: NetworkId| name != any.lowercase_tag()),
{
    reveal_strlit("validator");
    reveal_strlit("public");
    reveal_strlit("vfn");
    assert("validator"@.len() == 9);
    assert("public"@.len() == 6);
    assert("vfn"@.len() == 3);
    if network_named(name) is Err {
        assert forall|any: NetworkId| name != any.lowercase_tag() by {}
    } else {
        let found = network_named(name)->Ok_0;
        assert(name == found.lowercase_tag());
    }
}

} // verus!
