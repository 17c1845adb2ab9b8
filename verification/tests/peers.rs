use network_identity::{NetworkContext, NetworkId, PeerId, PeerNetworkId, RoleType};
use std::collections::{BTreeSet, HashMap};

fn peer(first: u8, last: u8) -> PeerId {
    let mut bytes = [0u8; 16];
    bytes[0] = first;
    bytes[15] = last;
    PeerId::new(bytes)
}

#[test]
fn peer_id_keeps_its_bytes() {
    let bytes = [
        0xca, 0x84, 0x32, 0x79, 0xe3, 0x42, 0x71, 0x44, 0xce, 0xad, 0x5e, 0x4d, 0x59, 0x99, 0xa3,
        0xd0,
    ];
    let id = PeerId::new(bytes);
    assert_eq!(id.into_bytes(), bytes);
    assert_eq!(id, PeerId::new(bytes));
}

#[test]
fn peer_id_in_hexadecimal() {
    let id = PeerId::new([
        0xca, 0x84, 0x32, 0x79, 0xe3, 0x42, 0x71, 0x44, 0xce, 0xad, 0x5e, 0x4d, 0x59, 0x99, 0xa3,
        0xd0,
    ]);
    assert_eq!(id.to_hex(), "ca843279e3427144cead5e4d5999a3d0");
    assert_eq!(id.short_str(), "ca843279");
    assert_eq!(PeerId::new([0u8; 16]).to_hex(), "00000000000000000000000000000000");
    assert_eq!(PeerId::new([0u8; 16]).short_str(), "00000000");
    assert_eq!(PeerId::new([0xff; 16]).short_str(), "ffffffff");
    assert_eq!(peer(0x0a, 0xf0).to_hex(), "0a0000000000000000000000000000f0");
    assert_eq!(peer(0x0a, 0xf0).short_str(), "0a000000");
}

#[test]
fn short_form_begins_the_long_form() {
    for _ in 0..32 {
        let id = PeerId::random();
        let long = id.to_hex();
        assert_eq!(long.len(), 32);
        assert_eq!(id.short_str(), &long[..8]);
    }
}

#[test]
fn every_digit_is_lowercase_hexadecimal() {
    for high in 0u8..16 {
        for low in 0u8..16 {
            let byte = high * 16 + low;
            let short = PeerId::new([byte; 16]).short_str();
            assert_eq!(short, format!("{:02x}", byte).repeat(4));
        }
    }
}

#[test]
fn random_peers_differ() {
    let a = PeerId::random();
    let b = PeerId::random();
    let c = PeerId::random();
    assert!(a != b || b != c);
}

#[test]
fn peers_are_ordered_as_byte_strings() {
    assert!(peer(0, 1) < peer(0, 2));
    assert!(peer(0, 255) < peer(1, 0));
    assert!(peer(1, 0) > peer(0, 255));
    assert!(peer(3, 3) <= peer(3, 3));
    assert!(peer(3, 3) >= peer(3, 3));
    assert_eq!(peer(3, 3).partial_cmp(&peer(3, 3)), Some(std::cmp::Ordering::Equal));
    for _ in 0..64 {
        let a = PeerId::random();
        let b = PeerId::random();
        assert_eq!(a.partial_cmp(&b), Some(a.into_bytes().cmp(&b.into_bytes())));
        assert_eq!(a.cmp(&b), a.into_bytes().cmp(&b.into_bytes()));
        assert_eq!(a == b, a.into_bytes() == b.into_bytes());
    }
}

#[test]
fn key_holds_what_it_was_made_of() {
    let key = PeerNetworkId::new(NetworkId::Vfn, peer(1, 2));
    assert_eq!(key.network_id(), NetworkId::Vfn);
    assert_eq!(key.peer_id(), peer(1, 2));
}

#[test]
fn same_peer_on_two_networks_is_two_keys() {
    let on_public = PeerNetworkId::new(NetworkId::Public, peer(1, 2));
    let on_relay = PeerNetworkId::new(NetworkId::Vfn, peer(1, 2));
    assert_ne!(on_public, on_relay);
    assert_eq!(on_public, PeerNetworkId::new(NetworkId::Public, peer(1, 2)));
    assert_ne!(on_public, PeerNetworkId::new(NetworkId::Public, peer(1, 3)));
    let mut state = HashMap::new();
    state.insert(on_public, "public");
    state.insert(on_relay, "relay");
    state.insert(PeerNetworkId::new(NetworkId::Public, peer(1, 2)), "public again");
    assert_eq!(state.len(), 2);
    assert_eq!(state[&on_public], "public again");
    assert_eq!(state[&on_relay], "relay");
}

#[test]
fn keys_are_ordered_by_network_then_peer() {
    let low = PeerNetworkId::new(NetworkId::Validator, peer(9, 9));
    let mid = PeerNetworkId::new(NetworkId::Vfn, peer(0, 0));
    let high = PeerNetworkId::new(NetworkId::Public, peer(0, 0));
    let higher = PeerNetworkId::new(NetworkId::Public, peer(0, 1));
    assert!(low < mid);
    assert!(mid < high);
    assert!(low < high);
    assert!(high < higher);
    assert!(higher > high);
    assert!(high <= high);
    let sorted: Vec<PeerNetworkId> =
        [higher, low, high, mid].into_iter().collect::<BTreeSet<_>>().into_iter().collect();
    assert_eq!(sorted, vec![low, mid, high, higher]);
    let mut by_sort = vec![higher, low, high, mid];
    by_sort.sort_by(|a, b| a.partial_cmp(b).unwrap());
    assert_eq!(by_sort, sorted);
}

#[test]
fn random_keys_are_on_their_networks() {
    assert_eq!(PeerNetworkId::random().network_id(), NetworkId::Public);
    assert_eq!(PeerNetworkId::random_validator().network_id(), NetworkId::Validator);
    assert_ne!(PeerNetworkId::random(), PeerNetworkId::random_validator());
}

#[test]
fn key_in_logs() {
    let id = peer(0xab, 0xcd);
    assert_eq!(PeerNetworkId::new(NetworkId::Public, id).to_string(), "Public:ab000000");
    assert_eq!(PeerNetworkId::new(NetworkId::Vfn, id).to_string(), "vfn:ab000000");
    assert_eq!(
        PeerNetworkId::new(NetworkId::Validator, id).to_string(),
        "Validator:ab000000"
    );
}

#[test]
fn context_holds_what_it_was_made_of() {
    let context = NetworkContext::new(RoleType::FullNode, NetworkId::Public, peer(7, 7));
    assert_eq!(context.role(), RoleType::FullNode);
    assert_eq!(context.network_id(), NetworkId::Public);
    assert_eq!(context.peer_id(), peer(7, 7));
    let copy = context;
    assert_eq!(copy, context);
    assert_ne!(context, NetworkContext::new(RoleType::Validator, NetworkId::Public, peer(7, 7)));
    assert_ne!(context, NetworkContext::new(RoleType::FullNode, NetworkId::Vfn, peer(7, 7)));
    assert_ne!(context, NetworkContext::new(RoleType::FullNode, NetworkId::Public, peer(7, 8)));
}

#[test]
fn context_in_logs() {
    let context = NetworkContext::new(RoleType::FullNode, NetworkId::Vfn, peer(0x01, 0xff));
    assert_eq!(context.to_string(), "[full_node,vfn,01000000]");
    let context = NetworkContext::new(RoleType::Validator, NetworkId::Validator, peer(0xfe, 0));
    assert_eq!(context.to_string(), "[validator,Validator,fe000000]");
}

#[test]
fn mock_contexts_are_validators() {
    let context = NetworkContext::mock_with_peer_id(peer(4, 2));
    assert_eq!(context.role(), RoleType::Validator);
    assert_eq!(context.network_id(), NetworkId::Validator);
    assert_eq!(context.peer_id(), peer(4, 2));
    let context = NetworkContext::mock();
    assert_eq!(context.role(), RoleType::Validator);
    assert_eq!(context.network_id(), NetworkId::Validator);
}

#[test]
fn context_as_a_document() {
    let context = NetworkContext::new(RoleType::Validator, NetworkId::Vfn, peer(0xab, 0xcd));
    let document = context.document();
    assert_eq!(document.role, "validator");
    assert_eq!(document.network_id, "vfn");
    assert_eq!(document.peer_id, "ab0000000000000000000000000000cd");
}
