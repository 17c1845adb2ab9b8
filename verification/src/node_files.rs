//! What the tool that writes a node's configuration files decides before it
//! touches a disk: the address of the shared repository, the name of the
//! file, and the networks the node is configured for.

use crate::network_id::NetworkId;
use crate::upstream::{preference, UpstreamConfig};
use vstd::prelude::*;
use vstd::string::StringExecFns;

verus! {

/// The networks a written configuration sets up.
#[derive(Debug, PartialEq)]
pub struct NodeNetworks {
    /// The validator network, for a node that is a validator.
    pub validator_network: Option<NetworkId>,
    /// The networks on which the node serves as a full node.
    pub full_node_networks: Vec<NetworkId>,
    /// The networks the node treats as upstream.
    pub upstream: UpstreamConfig,
}

/// The name of the configuration file for the kind of node.
pub open spec fn config_file(fullnode_only: bool) -> Seq<char> {
    if fullnode_only {
        "fullnode.node.yaml"@
    } else {
        "validator.node.yaml"@
    }
}

/// The address of the shared repository as the storage backend reads it.
pub open spec fn remote(
    github_org: Seq<char>,
    repo: Seq<char>,
    token_path: Seq<char>,
    namespace: Seq<char>,
) -> Seq<char> {
    "backend=github;repository_owner="@ + github_org + ";repository="@ + repo + ";token="@
        + token_path + ";namespace="@ + namespace
}

/// How many state snapshots a written configuration keeps before it prunes.
pub const PRUNE_WINDOW: u64 = 20_000;

/// Where the full node network of a written configuration listens.
pub const FULL_NODE_LISTEN_ADDRESS: &'static str = "/ip4/0.0.0.0/tcp/6179";

pub fn config_file_name(fullnode_only: bool) -> (name: &'static str)
    ensures
        name@ == config_file(fullnode_only),
{
    if fullnode_only {
        "fullnode.node.yaml"
    } else {
        "validator.node.yaml"
    }
}

pub fn github_remote(github_org: &str, repo: &str, token_path: &str, namespace: &str) -> (address:
    String)
    ensures
        address@ == remote(github_org@, repo@, token_path@, namespace@),
{
    let mut address: String = "backend=github;repository_owner=".to_owned();
    address.append(github_org);
    address.append(";repository=");
    address.append(repo);
    address.append(";token=");
    address.append(token_path);
    address.append(";namespace=");
    address.append(namespace);
    address
}

/// The networks of a node: every node serves the public network as a full
/// node and treats it as upstream, and a validator has its validator network
/// besides.
pub fn node_networks(fullnode_only: bool) -> (networks: NodeNetworks)
    ensures
        networks.validator_network == (if fullnode_only {
            None
        } else {
            Some(NetworkId::Validator)
        }),
        networks.full_node_networks@ == seq![NetworkId::Public],
        networks.upstream@ == seq![NetworkId::Public],
        preference(networks.upstream@, NetworkId::Public) == Some(0int),
{
    let validator_network = if fullnode_only {
        None
    } else {
        Some(NetworkId::Validator)
    };
    let mut full_node_networks: Vec<NetworkId> = Vec::new();
    full_node_networks.push(NetworkId::Public);
    let mut upstream: Vec<NetworkId> = Vec::new();
    upstream.push(NetworkId::Public);
    let networks = NodeNetworks {
        validator_network,
        full_node_networks,
        upstream: UpstreamConfig { networks: upstream },
    };
    proof {
        crate::upstream::lemma_preference_is_first_position(
            networks.upstream@,
            NetworkId::Public,
            0,
        );
    }
    networks
}

} // verus!
