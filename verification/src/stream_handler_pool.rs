//! The messages between the stream-handler pool and the dispatcher of a node.

use vstd::prelude::*;
use crate::net::{IpAddress, SocketAddress};

verus! {

/// A node's public key, as bytes.
#[derive(Clone, Debug, PartialEq, Eq)]
pub struct PublicKey {
    pub data: Vec<u8>,
}

/// Where data goes: to the node with a public key, or to a socket address.
#[derive(Clone, Debug, PartialEq, Eq)]
pub enum Endpoint {
    Key(PublicKey),
    Socket(SocketAddress),
}

/// A node's IP address and the ports it listens on.
#[derive(Clone, Debug, PartialEq, Eq)]
pub struct NodeAddr {
    pub ip_addr: IpAddress,
    pub ports: Vec<u16>,
}

/// What is known of a node: its public key and, where known, its address.
#[derive(Clone, Debug, PartialEq, Eq)]
pub struct NodeDescriptor {
    pub encryption_public_key: PublicKey,
    pub node_addr_opt: Option<NodeAddr>,
}

/// Data to transmit to an endpoint. A sequence number marks clear data; its
/// absence marks clandestine data.
#[derive(PartialEq, Debug, Clone)]
pub struct TransmitDataMsg {
    pub endpoint: Endpoint,
    pub last_data: bool,
    pub sequence_number: Option<u64>,
    pub data: Vec<u8>,
}

/// The dispatcher's answer to a query for a node: the node, where found, and
/// the transmission that asked.
#[derive(Clone)]
pub struct DispatcherNodeQueryResponse {
    pub result: Option<NodeDescriptor>,
    pub context: TransmitDataMsg,
}

} // verus!
