//! The events that the forwarder ships.

use vstd::prelude::*;

verus! {

/// The network address of a peer, as its octets in network order.
#[derive(Clone, Copy, Debug, PartialEq, Eq)]
pub enum PeerIp {
    V4([u8; 4]),
    V6([u8; 16]),
}

impl PeerIp {
    /// The index of the address family: 0 for version 4, 1 for version 6.
    pub open spec fn family(self) -> nat {
        match self {
            PeerIp::V4(_) => 0,
            PeerIp::V6(_) => 1,
        }
    }

    /// The octets of the address, in network order.
    pub open spec fn octets(self) -> Seq<u8> {
        match self {
            PeerIp::V4(octets) => octets@,
            PeerIp::V6(octets) => octets@,
        }
    }
}

/// One observed fact. Values are never changed once built.
#[derive(Clone, Copy, Debug, PartialEq, Eq)]
pub enum IpFeeMsg {
    /// A user transaction was received from the remote peer.
    UserTx { ip: PeerIp, signature: [u8; 64] },
    /// A transaction was executed and paid a fee.
    Fee { signature: [u8; 64], cu_limit: u64, cu_used: u64, fee: u64 },
}

} // verus!
