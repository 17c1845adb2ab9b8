//! The networks a node prefers as upstream, in order of preference.

use crate::network_id::NetworkId;
use vstd::prelude::*;

verus! {

/// The networks to which a node sends transactions and sync requests.
///
/// A validator's own network is its first upstream whether or not it is
/// listed. Any other network that is not listed is downstream. A well-formed
/// list names no network twice; the tooling that writes configuration sees to
/// that, and nothing here depends on it.
#[derive(Debug, PartialEq)]
pub struct UpstreamConfig {
    /// Upstream networks, most preferred first.
    pub networks: Vec<NetworkId>,
}

impl View for UpstreamConfig {
    type V = Seq<NetworkId>;

    open spec fn view(&self) -> Seq<NetworkId> {
        self.networks@
    }
}

/// Whether `index` is the first place at which `network` stands in `list`.
pub open spec fn is_first_position(list: Seq<NetworkId>, network: NetworkId, index: int) -> bool {
    &&& 0 <= index < list.len()
    &&& list[index] == network
    &&& forall|earlier: int| 0 <= earlier < index ==> list[earlier] != network
}

/// The preference of `network` under the list `list`: the validator network
/// always comes first, another network has the rank of its first place in
/// the list, and a network that is not listed has none.
pub open spec fn preference(list: Seq<NetworkId>, network: NetworkId) -> Option<int> {
    if network == NetworkId::Validator {
        Some(0)
    } else if list.contains(network) {
        Some(choose|index: int| is_first_position(list, network, index))
    } else {
        None
    }
}

/// How many upstream networks a node with the list `list` has: as many as
/// are listed, and one where none is.
pub open spec fn upstream_total(list: Seq<NetworkId>) -> int {
    if list.len() == 0 {
        1
    } else {
        list.len() as int
    }
}

/// A first place is the only first place.
pub proof fn lemma_first_position_unique(
    list: Seq<NetworkId>,
    network: NetworkId,
    first: int,
    other: int,
)
    requires
        is_first_position(list, network, first),
        is_first_position(list, network, other),
    ensures
        first == other,
{
    if first < other {
        assert(list[first] != network);
    } else if other < first {
        assert(list[other] != network);
    }
}

/// The preference of a listed network is its first place in the list.
pub proof fn lemma_preference_is_first_position(
    list: Seq<NetworkId>,
    network: NetworkId,
    index: int,
)
    requires
        network != NetworkId::Validator,
        is_first_position(list, network, index),
    ensures
        preference(list, network) == Some(index),
{
    assert(list.contains(network));
    let chosen = choose|index: int| is_first_position(list, network, index);
    lemma_first_position_unique(list, network, chosen, index);
}

impl UpstreamConfig {
    /// Whether the list names no network twice.
    pub open spec fn well_formed(&self) -> bool {
        self@.no_duplicates()
    }

    /// Checks that the list names no network twice.
    pub fn is_well_formed(&self) -> (ok: bool)
        ensures
            ok == self.well_formed(),
    {
        let total: usize = self.networks.len();
        let mut first: usize = 0;
        while first < total
            invariant
                total == self@.len(),
                first <= total,
                forall|i: int, j: int| 0 <= i < first && i < j < total ==> self@[i] != self@[j],
            decreases total - first,
        {
            let mut second: usize = first + 1;
            while second < total
                invariant
                    total == self@.len(),
                    first < second <= total,
                    forall|j: int| first < j < second ==> self@[first as int] != self@[j],
                decreases total - second,
            {
                if self.networks[first] == self.networks[second] {
                    return false;
                }
                second += 1;
            }
            first += 1;
        }
        assert forall|i: int, j: int|
            0 <= i < self@.len() && 0 <= j < self@.len() && i != j implies self@[i] != self@[j] by {
            if i < j {
                assert(self@[i] != self@[j]);
            } else {
                assert(self@[j] != self@[i]);
            }
        }
        true
    }

    /// Returns the upstream preference of a network according to this
    /// config: `None` if the network is not upstream, else its rank, where
    /// zero is the highest preference.
    pub fn get_upstream_preference(&self, network: NetworkId) -> (rank: Option<usize>)
        ensures
            match rank {
                Some(index) => preference(self@, network) == Some(index as int),
                None => preference(self@, network) is None,
            },
            network == NetworkId::Validator ==> rank == Some(0usize),
            network != NetworkId::Validator ==> match rank {
                Some(index) => is_first_position(self@, network, index as int),
                None => !self@.contains(network),
            },
    {
        if network == NetworkId::Validator {
            // The validator network always has the highest priority.
            Some(0)
        } else {
            let mut index: usize = 0;
            while index < self.networks.len()
                invariant
                    index <= self.networks.len(),
                    network != NetworkId::Validator,
                    forall|earlier: int| 0 <= earlier < index ==> self@[earlier] != network,
                decreases self.networks.len() - index,
            {
                if self.networks[index] == network {
                    proof {
                        lemma_preference_is_first_position(self@, network, index as int);
                    }
                    return Some(index);
                }
                index += 1;
            }
            None
        }
    }

    /// Returns the number of upstream networks possible for a node with this
    /// config. Never zero: a node whose list is empty still has its validator
    /// network.
    pub fn upstream_count(&self) -> (count: usize)
        ensures
            count == upstream_total(self@),
            count >= 1,
            count >= self@.len(),
    {
        let listed: usize = self.networks.len();
        if listed < 1 {
            1
        } else {
            listed
        }
    }
}

impl Clone for UpstreamConfig {
    fn clone(&self) -> (copy: UpstreamConfig)
        ensures
            copy@ == self@,
    {
        let copy = UpstreamConfig { networks: self.networks.clone() };
        assert(copy@ =~= self@);
        copy
    }
}

impl Default for UpstreamConfig {
    fn default() -> (config: UpstreamConfig)
        ensures
            config@ == Seq::<NetworkId>::empty(),
    {
        UpstreamConfig { networks: Vec::new() }
    }
}

/// Whatever is listed, the validator network is the first upstream and the
/// count of upstreams is at least one; with nothing listed it is exactly one.
pub proof fn lemma_upstream_floor(list: Seq<NetworkId>)
    ensures
        preference(list, NetworkId::Validator) == Some(0int),
        upstream_total(list) >= 1,
        upstream_total(list) >= list.len(),
        upstream_total(Seq::<NetworkId>::empty()) == 1,
{
}

/// A preference, where there is one, is below the count of upstreams.
pub proof fn lemma_preference_below_total(list: Seq<NetworkId>, network: NetworkId)
    ensures
        preference(list, network) matches Some(index) ==> 0 <= index < upstream_total(list),
{
    if network != NetworkId::Validator && list.contains(network) {
        let witness = choose|index: int| 0 <= index < list.len() && list[index] == network;
        lemma_first_position_exists(list, network, witness);
    }
}

/// A network that stands somewhere in a list has a first place in it.
pub proof fn lemma_first_position_exists(list: Seq<NetworkId>, network: NetworkId, at: int)
    requires
        0 <= at < list.len(),
        list[at] == network,
    ensures
        exists|index: int| is_first_position(list, network, index),
    decreases at,
{
    if exists|earlier: int| 0 <= earlier < at && list[earlier] == network {
        let earlier = choose|earlier: int| 0 <= earlier < at && list[earlier] == network;
        lemma_first_position_exists(list, network, earlier);
    } else {
        assert(is_first_position(list, network, at));
    }
}

/// In a list that names no network twice, every network but the validator
/// network has the place at which it stands as its preference, and the list
/// is at most three networks long.
pub proof fn lemma_well_formed_list(list: Seq<NetworkId>, index: int)
    requires
        list.no_duplicates(),
        0 <= index < list.len(),
    ensures
        list[index] != NetworkId::Validator ==> preference(list, list[index]) == Some(index),
        list.len() <= 3,
{
    if list[index] != NetworkId::Validator {
        assert(is_first_position(list, list[index], index));
        lemma_preference_is_first_position(list, list[index], index);
    }
    if list.len() > 3 {
        assert(list[0] != list[1] && list[0] != list[2] && list[0] != list[3]);
        assert(list[1] != list[2] && list[1] != list[3] && list[2] != list[3]);
    }
}

} // verus!
