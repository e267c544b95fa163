//! Response types of the dashboard API, kept apart from the terminal UI's
//! own types.

use vstd::prelude::*;
use crate::text::{owned, str_eq, concat2, concat3};

verus! {

/// Overview page: proof status, network figures and connected peers.
pub struct OverviewResponse {
    /// Current proof status.
    pub proof_status: ProofStatusApi,
    /// Network-wide figures.
    pub network_stats: NetworkStatsApi,
    /// Peers connected now.
    pub connected_peers: Vec<ConnectedPeerApi>,
    /// The local node.
    pub local_node: LocalNodeApi,
    /// Uptime in seconds.
    pub uptime_secs: u64,
}

/// Status of the proofs.
pub struct ProofStatusApi {
    /// Whether the connectivity proof passed.
    pub connectivity_pass: bool,
    /// Reachable nodes.
    pub connectivity_reachable: usize,
    /// Nodes in all.
    pub connectivity_total: usize,
    /// Whether the gossip proof passed.
    pub gossip_pass: bool,
    /// HyParView active view size.
    pub hyparview_active: usize,
    /// Peers SWIM holds alive.
    pub swim_alive: usize,
    /// Whether the Plumtree tree is valid.
    pub tree_valid: bool,
    /// Whether the CRDT proof passed.
    pub crdt_pass: bool,
    /// Nodes that converged.
    pub crdt_nodes: usize,
    /// First eight characters of the converged state hash.
    pub crdt_hash_short: Option<String>,
    /// Whether the NAT traversal proof passed.
    pub nat_pass: bool,
    /// Direct connections.
    pub nat_direct: usize,
    /// Hole-punched connections.
    pub nat_punched: usize,
    /// Relayed connections.
    pub nat_relayed: usize,
    /// Session of the last proof run.
    pub session_id: Option<String>,
    /// Whether a proof run is in progress.
    pub running: bool,
    /// Milliseconds since the last proof.
    pub last_proof_ms: Option<u64>,
}

/// Network figures.
pub struct NetworkStatsApi {
    /// Connection attempts.
    pub connection_attempts: u64,
    /// Successful connections.
    pub connection_successes: u64,
    /// Failed connections.
    pub connection_failures: u64,
    /// Direct connections.
    pub direct_connections: u64,
    /// Hole-punched connections.
    pub hole_punched_connections: u64,
    /// Relayed connections.
    pub relayed_connections: u64,
    /// Inbound connections.
    pub inbound_connections: u64,
    /// Outbound connections.
    pub outbound_connections: u64,
    /// IPv4 connections.
    pub ipv4_connections: u64,
    /// IPv6 connections.
    pub ipv6_connections: u64,
    /// Test packets sent.
    pub packets_sent: u64,
    /// Test packets received.
    pub packets_received: u64,
    /// Bytes sent.
    pub bytes_sent: u64,
    /// Bytes received.
    pub bytes_received: u64,
    /// Registered nodes.
    pub total_registered_nodes: usize,
    /// Peers discovered by gossip.
    pub gossip_peers_discovered: u64,
    /// Relays discovered by gossip.
    pub gossip_relays_discovered: u64,
}

/// The local node.
pub struct LocalNodeApi {
    /// Peer identifier.
    pub peer_id: String,
    /// Its first eight characters.
    pub short_id: String,
    /// NAT type detected.
    pub nat_type: String,
    /// Local IPv4 address.
    pub local_ipv4: Option<String>,
    /// External IPv4 address.
    pub external_ipv4: Option<String>,
    /// Local IPv6 address.
    pub local_ipv6: Option<String>,
    /// External IPv6 address.
    pub external_ipv6: Option<String>,
    /// Whether the node is registered.
    pub registered: bool,
}

/// A connected peer.
pub struct ConnectedPeerApi {
    /// First eight characters of its identifier.
    pub short_id: String,
    /// Its identifier.
    pub full_id: String,
    /// Country code.
    pub location: String,
    /// `direct`, `hole_punched` or `relayed`.
    pub method: String,
    /// `inbound` or `outbound`.
    pub direction: String,
    /// Round-trip time in milliseconds.
    pub rtt_ms: Option<u32>,
    /// `excellent`, `good`, `fair`, `poor` or `unknown`.
    pub quality: String,
    /// Packets sent.
    pub packets_sent: u64,
    /// Packets received.
    pub packets_received: u64,
    /// Seconds connected.
    pub connected_secs: u64,
}

/// The connectivity matrix.
pub struct ConnectionsResponse {
    /// One entry per known peer.
    pub connections: Vec<ConnectionEntryApi>,
    /// Peers in the history.
    pub total_peers: usize,
    /// Peers connected now.
    pub connected_count: usize,
}

/// One peer of the connectivity matrix.
pub struct ConnectionEntryApi {
    /// First eight characters of its identifier.
    pub short_id: String,
    /// Its identifier.
    pub full_id: String,
    /// Country code.
    pub location: String,
    /// NAT type.
    pub nat_type: String,
    /// `connected`, `disconnected` or `never_connected`.
    pub status: String,
    /// Connections from us to it.
    pub outbound: DirectionalStatsApi,
    /// Connections from it to us.
    pub inbound: DirectionalStatsApi,
    /// Best round-trip time in milliseconds.
    pub best_rtt_ms: Option<u32>,
    /// Packets exchanged.
    pub total_packets: u64,
    /// Connections made.
    pub connection_count: u32,
    /// Seconds since the first connection.
    pub first_connected_secs: u64,
    /// Seconds since last seen.
    pub last_seen_secs: u64,
}

/// Connection figures in one direction, by method and IP version.
pub struct DirectionalStatsApi {
    /// Attempts.
    pub attempts: u32,
    /// Successes.
    pub successes: u32,
    /// Failures.
    pub failures: u32,
    /// Direct over IPv4: `unknown`, `success` or `failed`.
    pub direct_ipv4: String,
    /// Direct over IPv6.
    pub direct_ipv6: String,
    /// NAT traversal over IPv4.
    pub nat_ipv4: String,
    /// NAT traversal over IPv6.
    pub nat_ipv6: String,
    /// Relay over IPv4.
    pub relay_ipv4: String,
    /// Relay over IPv6.
    pub relay_ipv6: String,
}

/// The symbol of an outcome: a tick for success, a cross for failure, a
/// dot otherwise.
pub open spec fn symbol_of(outcome: Seq<char>) -> Seq<char> {
    if outcome == "success"@ {
        "✓"@
    } else if outcome == "failed"@ {
        "×"@
    } else {
        "·"@
    }
}

/// The symbol of an outcome (see [`symbol_of`]).
pub fn outcome_symbol(outcome: &str) -> (s: &'static str)
    ensures
        s@ == symbol_of(outcome@),
{
    if str_eq(outcome, "success") {
        "✓"
    } else if str_eq(outcome, "failed") {
        "×"
    } else {
        "·"
    }
}

impl DirectionalStatsApi {
    /// Figures from counts and per-method outcomes.
    pub fn from_method_outcome(
        attempts: u32,
        successes: u32,
        failures: u32,
        direct_ipv4: &str,
        direct_ipv6: &str,
        nat_ipv4: &str,
        nat_ipv6: &str,
        relay_ipv4: &str,
        relay_ipv6: &str,
    ) -> (r: Self)
        ensures
            r.attempts == attempts,
            r.successes == successes,
            r.failures == failures,
            r.direct_ipv4@ == direct_ipv4@,
            r.direct_ipv6@ == direct_ipv6@,
            r.nat_ipv4@ == nat_ipv4@,
            r.nat_ipv6@ == nat_ipv6@,
            r.relay_ipv4@ == relay_ipv4@,
            r.relay_ipv6@ == relay_ipv6@,
    {
        DirectionalStatsApi {
            attempts,
            successes,
            failures,
            direct_ipv4: owned(direct_ipv4),
            direct_ipv6: owned(direct_ipv6),
            nat_ipv4: owned(nat_ipv4),
            nat_ipv6: owned(nat_ipv6),
            relay_ipv4: owned(relay_ipv4),
            relay_ipv6: owned(relay_ipv6),
        }
    }

    /// Compact summary such as `D4✓D6·N4✓N6·R4·R6·`.
    pub fn summary(&self) -> (s: String)
        ensures
            s@ == "D4"@ + symbol_of(self.direct_ipv4@) + "D6"@ + symbol_of(self.direct_ipv6@)
                + "N4"@ + symbol_of(self.nat_ipv4@) + "N6"@ + symbol_of(self.nat_ipv6@)
                + "R4"@ + symbol_of(self.relay_ipv4@) + "R6"@ + symbol_of(self.relay_ipv6@),
    {
        let mut s = concat2("D4", outcome_symbol(self.direct_ipv4.as_str()));
        s.append("D6");
        s.append(outcome_symbol(self.direct_ipv6.as_str()));
        s.append("N4");
        s.append(outcome_symbol(self.nat_ipv4.as_str()));
        s.append("N6");
        s.append(outcome_symbol(self.nat_ipv6.as_str()));
        s.append("R4");
        s.append(outcome_symbol(self.relay_ipv4.as_str()));
        s.append("R6");
        s.append(outcome_symbol(self.relay_ipv6.as_str()));
        s
    }
}

/// Recent protocol frames.
pub struct FramesResponse {
    /// The frames.
    pub frames: Vec<ProtocolFrameApi>,
    /// Frames recorded in all.
    pub total_recorded: usize,
}

/// One protocol frame.
pub struct ProtocolFrameApi {
    /// Peer of the frame.
    pub peer_id: String,
    /// Frame type, such as `ADD_ADDRESS`.
    pub frame_type: String,
    /// `sent` or `received`.
    pub direction: String,
    /// Milliseconds since the frame was handled.
    pub elapsed_ms: u64,
    /// Further context.
    pub context: Option<String>,
}

/// Health of the gossip protocols.
pub struct GossipResponse {
    /// HyParView membership.
    pub hyparview: HyParViewStatusApi,
    /// SWIM failure detection.
    pub swim: SwimStatusApi,
    /// Plumtree broadcast tree.
    pub plumtree: PlumtreeStatusApi,
    /// Gossip message figures.
    pub message_stats: GossipMessageStatsApi,
}

/// HyParView membership.
pub struct HyParViewStatusApi {
    /// Active view size.
    pub active_view_size: usize,
    /// Largest active view.
    pub active_view_max: usize,
    /// Passive view size.
    pub passive_view_size: usize,
    /// Largest passive view.
    pub passive_view_max: usize,
    /// Peers of the active view.
    pub active_peers: Vec<String>,
    /// `healthy`, `degraded` or `unhealthy`.
    pub health: String,
}

/// SWIM failure detection.
pub struct SwimStatusApi {
    /// Peers alive.
    pub alive_count: usize,
    /// Peers suspected.
    pub suspect_count: usize,
    /// Peers failed.
    pub failed_count: usize,
    /// Members in all.
    pub membership_size: usize,
    /// `healthy`, `degraded` or `unhealthy`.
    pub health: String,
}

/// Plumtree broadcast tree.
pub struct PlumtreeStatusApi {
    /// Eager-push peers.
    pub eager_peers: usize,
    /// Lazy-push peers.
    pub lazy_peers: usize,
    /// Depth of the tree.
    pub tree_depth: Option<usize>,
    /// Whether the tree is valid.
    pub tree_valid: bool,
    /// Messages broadcast.
    pub messages_broadcast: u64,
    /// Messages received.
    pub messages_received: u64,
    /// `healthy`, `degraded` or `unhealthy`.
    pub health: String,
}

/// Gossip message figures.
pub struct GossipMessageStatsApi {
    /// Announcements sent.
    pub announcements_sent: u64,
    /// Announcements received.
    pub announcements_received: u64,
    /// Peer queries sent.
    pub peer_queries_sent: u64,
    /// Peer queries received.
    pub peer_queries_received: u64,
    /// Peer responses sent.
    pub peer_responses_sent: u64,
    /// Peer responses received.
    pub peer_responses_received: u64,
    /// Cache updates.
    pub cache_updates: u64,
    /// Cache hits.
    pub cache_hits: u64,
    /// Cache misses.
    pub cache_misses: u64,
    /// Cache size.
    pub cache_size: u64,
}

/// Query of the frames endpoint.
pub struct FramesQuery {
    /// Most frames to return.
    pub limit: usize,
}

/// The limit of the frames endpoint when none is given.
pub fn default_limit() -> (n: usize)
    ensures
        n == 200,
{
    200
}

impl Default for FramesQuery {
    fn default() -> (q: Self)
        ensures
            q.limit == 200,
    {
        FramesQuery { limit: default_limit() }
    }
}

} // verus!
