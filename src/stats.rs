use vstd::prelude::*;

verus! {

/// How the node is connected to a peer.
#[derive(Debug, Clone, Copy, PartialEq, Eq, Structural)]
pub enum PeerConnection {
    Regular,
    Feeler,
    Manual,
    Extra,
}

/// A peer as the node reports it, with its address already rendered as text.
pub struct PeerSnapshot {
    pub address: String,
    pub user_agent: String,
    pub initial_height: u32,
    pub connection: PeerConnection,
}

/// A peer in the stable external shape.
#[derive(Debug, Clone)]
pub struct PeerDetailedInfo {
    pub address: String,
    pub user_agent: String,
    pub height: u32,
    pub is_inbound: bool,
}

/// A node status snapshot in the stable external shape.
#[derive(Debug, Clone)]
pub struct NodeStats {
    pub in_ibd: bool,
    pub headers: u32,
    pub blocks: u32,
    pub user_agent: String,
    pub uptime_secs: u64,
    pub peers_count: usize,
    pub peers: Vec<PeerDetailedInfo>,
}

/// Whether `d` is the external shape of `p`: every field carried over, and
/// only feeler connections left out of the "inbound" classification.
pub open spec fn peer_maps_to(p: PeerSnapshot, d: PeerDetailedInfo) -> bool {
    &&& d.address@ == p.address@
    &&& d.user_agent@ == p.user_agent@
    &&& d.height == p.initial_height
    &&& d.is_inbound == (p.connection != PeerConnection::Feeler)
}

impl PeerDetailedInfo {
    pub fn from_snapshot(p: &PeerSnapshot) -> (r: PeerDetailedInfo)
        ensures
            peer_maps_to(*p, r),
    {
        PeerDetailedInfo {
            address: p.address.clone(),
            user_agent: p.user_agent.clone(),
            height: p.initial_height,
            is_inbound: !matches!(p.connection, PeerConnection::Feeler),
        }
    }
}

/// Maps every peer of a snapshot, in order.
pub fn map_peers(peers: &Vec<PeerSnapshot>) -> (r: Vec<PeerDetailedInfo>)
    ensures
        r@.len() == peers@.len(),
        forall|i: int| 0 <= i < peers@.len() ==> peer_maps_to(peers@[i], #[trigger] r@[i]),
{
    let mut out: Vec<PeerDetailedInfo> = Vec::new();
    let mut i: usize = 0;
    while i < peers.len()
        invariant
            i <= peers@.len(),
            out@.len() == i,
            forall|j: int| 0 <= j < i ==> peer_maps_to(peers@[j], #[trigger] out@[j]),
        decreases peers@.len() - i,
    {
        out.push(PeerDetailedInfo::from_snapshot(&peers[i]));
        i = i + 1;
    }
    out
}

impl NodeStats {
    /// Builds the external snapshot from the node's aggregate status and its
    /// live peers.
    pub fn from_snapshot(
        in_ibd: bool,
        headers: u32,
        blocks: u32,
        user_agent: String,
        uptime_secs: u64,
        peers: &Vec<PeerSnapshot>,
    ) -> (r: NodeStats)
        ensures
            r.in_ibd == in_ibd,
            r.headers == headers,
            r.blocks == blocks,
            r.user_agent@ == user_agent@,
            r.uptime_secs == uptime_secs,
            r.peers_count == peers@.len(),
            r.peers@.len() == peers@.len(),
            forall|i: int| 0 <= i < peers@.len() ==> peer_maps_to(peers@[i], #[trigger] r.peers@[i]),
    {
        let mapped = map_peers(peers);
        NodeStats {
            in_ibd,
            headers,
            blocks,
            user_agent,
            uptime_secs,
            peers_count: peers.len(),
            peers: mapped,
        }
    }
}

} // verus!
