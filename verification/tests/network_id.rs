use network_identity::{NetworkId, ParseError, PeerRole, RoleType};
use std::str::FromStr;

#[test]
fn test_ensure_network_id_order() {
    assert!(NetworkId::Validator < NetworkId::Vfn);
    assert!(NetworkId::Vfn < NetworkId::Public);
    assert!(NetworkId::Validator < NetworkId::Public);
}

#[test]
fn order_is_the_same_under_every_comparison() {
    let ascending = [NetworkId::Validator, NetworkId::Vfn, NetworkId::Public];
    for (i, a) in ascending.iter().enumerate() {
        for (j, b) in ascending.iter().enumerate() {
            assert_eq!(a.partial_cmp(b), Some(i.cmp(&j)));
            assert_eq!(a.cmp(b), i.cmp(&j));
            assert_eq!(a == b, i == j);
            assert_eq!(a <= b, i <= j);
            assert_eq!(a > b, i > j);
        }
    }
    let mut shuffled = vec![NetworkId::Public, NetworkId::Validator, NetworkId::Vfn];
    shuffled.sort();
    assert_eq!(shuffled, ascending.to_vec());
    assert_eq!(NetworkId::Validator.ordinal(), 0);
    assert_eq!(NetworkId::Vfn.ordinal(), 1);
    assert_eq!(NetworkId::Public.ordinal(), 2);
}

#[test]
fn tags_are_canonical() {
    assert_eq!(NetworkId::Validator.as_str(), "Validator");
    assert_eq!(NetworkId::Public.as_str(), "Public");
    assert_eq!(NetworkId::Vfn.as_str(), "vfn");
}

#[test]
fn predicates_name_one_network_each() {
    assert!(NetworkId::Vfn.is_vfn_network());
    assert!(!NetworkId::Validator.is_vfn_network());
    assert!(!NetworkId::Public.is_vfn_network());
    assert!(NetworkId::Validator.is_validator_network());
    assert!(!NetworkId::Vfn.is_validator_network());
    assert!(!NetworkId::Public.is_validator_network());
}

#[test]
fn parse_rejects_a_misspelled_name() {
    assert_eq!(
        NetworkId::from_str("vlaidator"),
        Err(ParseError::InvalidNetworkName)
    );
    assert_eq!(
        "vlaidator".parse::<NetworkId>(),
        Err(ParseError::InvalidNetworkName)
    );
    assert_eq!(ParseError::InvalidNetworkName.message(), "Invalid network name");
}

#[test]
fn parse_ignores_case() {
    assert_eq!(NetworkId::from_str("VFN"), Ok(NetworkId::Vfn));
    assert_eq!(NetworkId::from_str("vfn"), Ok(NetworkId::Vfn));
    assert_eq!(NetworkId::from_str("Validator"), Ok(NetworkId::Validator));
    assert_eq!(NetworkId::from_str("VALIDATOR"), Ok(NetworkId::Validator));
    assert_eq!(NetworkId::from_str("pUbLiC"), Ok(NetworkId::Public));
    assert_eq!("Public".parse::<NetworkId>(), Ok(NetworkId::Public));
}

#[test]
fn parse_reads_every_canonical_tag() {
    for id in [NetworkId::Validator, NetworkId::Vfn, NetworkId::Public] {
        assert_eq!(NetworkId::from_str(id.as_str()), Ok(id));
    }
}

#[test]
fn parse_rejects_everything_else() {
    for name in ["", " vfn", "vfn ", "private", "new_public", "validators", "pub", "v f n"] {
        assert_eq!(
            NetworkId::from_str(name),
            Err(ParseError::InvalidNetworkName),
            "{:?}",
            name
        );
    }
}

#[test]
fn from_lowercase_is_exact_about_case() {
    assert_eq!(NetworkId::from_lowercase("validator"), Ok(NetworkId::Validator));
    assert_eq!(NetworkId::from_lowercase("public"), Ok(NetworkId::Public));
    assert_eq!(NetworkId::from_lowercase("vfn"), Ok(NetworkId::Vfn));
    assert_eq!(
        NetworkId::from_lowercase("VFN"),
        Err(ParseError::InvalidNetworkName)
    );
    assert_eq!(
        NetworkId::from_lowercase("Validator"),
        Err(ParseError::InvalidNetworkName)
    );
}

#[test]
fn default_is_the_public_network_and_nothing_less() {
    let fallback = NetworkId::default();
    assert_eq!(fallback, NetworkId::Public);
    // The fallback is a network like any other: it has its tag, its place
    // in the order and its rows of the role table.
    assert_eq!(fallback.as_str(), "Public");
    assert!(NetworkId::Vfn < fallback);
    assert_eq!(
        fallback.upstream_roles(&RoleType::FullNode),
        NetworkId::Public.upstream_roles(&RoleType::FullNode)
    );
    assert!(!fallback.upstream_roles(&RoleType::FullNode).is_empty());
}

#[test]
fn role_tags() {
    assert_eq!(RoleType::Validator.as_str(), "validator");
    assert_eq!(RoleType::FullNode.as_str(), "full_node");
    assert_eq!(RoleType::Validator.to_string(), "validator");
    assert!(RoleType::Validator.is_validator());
    assert!(!RoleType::FullNode.is_validator());
}

#[test]
fn topology_table_row_by_row() {
    for role in [RoleType::Validator, RoleType::FullNode] {
        assert_eq!(
            NetworkId::Validator.upstream_roles(&role),
            &[PeerRole::Validator]
        );
        assert_eq!(
            NetworkId::Validator.downstream_roles(&role),
            &[PeerRole::Validator]
        );
        assert_eq!(
            NetworkId::Public.upstream_roles(&role),
            &[
                PeerRole::PreferredUpstream,
                PeerRole::Upstream,
                PeerRole::ValidatorFullNode
            ]
        );
        assert_eq!(
            NetworkId::Public.downstream_roles(&role),
            &[
                PeerRole::ValidatorFullNode,
                PeerRole::Downstream,
                PeerRole::Known,
                PeerRole::Unknown
            ]
        );
    }
    assert_eq!(
        NetworkId::Vfn.upstream_roles(&RoleType::Validator),
        &[] as &[PeerRole]
    );
    assert_eq!(
        NetworkId::Vfn.downstream_roles(&RoleType::Validator),
        &[PeerRole::ValidatorFullNode]
    );
    assert_eq!(
        NetworkId::Vfn.upstream_roles(&RoleType::FullNode),
        &[PeerRole::Validator]
    );
    assert_eq!(
        NetworkId::Vfn.downstream_roles(&RoleType::FullNode),
        &[] as &[PeerRole]
    );
}

#[test]
fn topology_is_stable_across_calls() {
    for id in [NetworkId::Validator, NetworkId::Vfn, NetworkId::Public] {
        for role in [RoleType::Validator, RoleType::FullNode] {
            assert_eq!(id.upstream_roles(&role), id.upstream_roles(&role));
            assert_eq!(id.downstream_roles(&role), id.downstream_roles(&role));
        }
    }
}

#[test]
fn relay_network_runs_one_way() {
    for id in [NetworkId::Validator, NetworkId::Vfn, NetworkId::Public] {
        for role in [RoleType::Validator, RoleType::FullNode] {
            let closed_up = id == NetworkId::Vfn && role == RoleType::Validator;
            let closed_down = id == NetworkId::Vfn && role == RoleType::FullNode;
            assert_eq!(id.upstream_roles(&role).is_empty(), closed_up);
            assert_eq!(id.downstream_roles(&role).is_empty(), closed_down);
        }
    }
}
