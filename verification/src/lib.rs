//! Network identity and topology classification for a multi-tier peer-to-peer
//! node.
//!
//! A node takes part in up to three logical networks: the validator network,
//! the relay network between a validator and its full nodes, and the public
//! network. This crate names those networks, converts the name to and from
//! the shapes it has on the wire, and ranks the roles of peers that a node
//! may treat as upstream or downstream on each network.

pub mod context;
pub mod network_id;
pub mod node_files;
pub mod peer;
pub mod peer_network_id;
pub mod role;
pub mod topology;
pub mod upstream;
pub mod wire;

pub use context::{ContextDocument, NetworkContext};
pub use network_id::{NetworkId, ParseError};
pub use peer::PeerId;
pub use peer_network_id::PeerNetworkId;
pub use role::{PeerRole, RoleType};
pub use upstream::UpstreamConfig;
pub use wire::{
    CurrentNetworkId, LegacyNetworkId, LegacyShape, WireNetworkId, WireShape, WireTag,
};
