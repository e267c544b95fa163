//! Orchestration of proof-based tests of the network.
//!
//! A run checks connectivity, the gossip protocols and CRDT convergence,
//! makes the proofs of each, and investigates the logs when a step fails.
//! Connectivity passes whenever enough nodes take part: any connection,
//! direct, hole-punched or relayed, counts, and the relay is always there
//! as a fallback; the figures of which paths work are informational.

use vstd::prelude::*;
use crate::keyed::{KeyedList, unique_keys, has_key, key_pos, upsert, viewed, lemma_viewed_upsert, lemma_viewed_keys, lemma_lookup_at, keys_of, lookup};
use crate::text::{
    string_views, decimal, joined, join, owned, concat2, concat3, usize_to_text, u128_to_text, dedup_strings,
    first_occurrences, duplicate_strings, str_eq, rounded_percent, percent_of, lines_text, write_line,
};
use crate::bootstrap_peers::{SocketAddress, SocketAddressView};
use crate::registry::{
    TestAnomaly, TestAnomalyView, test_anomaly_views, duplicate_anomalies, NetworkConnectivityProof,
    SignedAttestation, ProofType, CrdtConvergenceProof,
};
use crate::crdt_verification::{CrdtVerifier, CrdtVerifierConfig, CrdtVerifierView, CrdtType, all_same_hash, convergence_checked, is_convergence_proof};
use crate::debug_automation::{
    AutomatedDebugger, AutomatedDebuggerView, DebuggerConfig, DebugReport, LogEntry, is_investigation, pattern_views,
    default_patterns_spec, Severity,
};
use crate::gossip_verification::VerificationSummary as GossipSummary;
use crate::platform::{unix_time_ms, instant_now, millis_between, new_uuid_v4, is_hyphenated_uuid, duration_text, duration_debug_text};

verus! {

// ---------------------------------------------------------------------------
// Connections and their verification
// ---------------------------------------------------------------------------

/// IP version of a connection.
#[derive(Debug, Clone, Copy, PartialEq, Eq, Hash, Structural)]
pub enum IpVersion {
    /// IPv4.
    V4,
    /// IPv6.
    V6,
}

impl IpVersion {
    /// `IPv4` or `IPv6`.
    pub open spec fn label_spec(self) -> Seq<char> {
        match self {
            IpVersion::V4 => "IPv4"@,
            IpVersion::V6 => "IPv6"@,
        }
    }

    /// The name written for the version.
    pub fn label(self) -> (s: &'static str)
        ensures
            s@ == self.label_spec(),
    {
        match self {
            IpVersion::V4 => "IPv4",
            IpVersion::V6 => "IPv6",
        }
    }
}

/// Who opened a connection.
#[derive(Debug, Clone, Copy, PartialEq, Eq, Hash, Structural)]
pub enum ConnectionDirection {
    /// We did.
    Outbound,
    /// The peer did.
    Inbound,
}

impl ConnectionDirection {
    /// `outbound` or `inbound`.
    pub open spec fn label_spec(self) -> Seq<char> {
        match self {
            ConnectionDirection::Outbound => "outbound"@,
            ConnectionDirection::Inbound => "inbound"@,
        }
    }

    /// The name written for the direction.
    pub fn label(self) -> (s: &'static str)
        ensures
            s@ == self.label_spec(),
    {
        match self {
            ConnectionDirection::Outbound => "outbound",
            ConnectionDirection::Inbound => "inbound",
        }
    }
}

/// Identifies a verified connection.
pub struct VerificationKey {
    /// Remote peer.
    pub peer_id: String,
    /// IP version used.
    pub ip_version: IpVersion,
    /// Who opened it.
    pub direction: ConnectionDirection,
}

impl VerificationKey {
    /// The key of a connection to `peer_id`.
    pub fn new(peer_id: String, ip_version: IpVersion, direction: ConnectionDirection) -> (k: Self)
        ensures
            k.peer_id@ == peer_id@,
            k.ip_version == ip_version,
            k.direction == direction,
    {
        VerificationKey { peer_id, ip_version, direction }
    }
}

/// Result of exchanging test data over a connection: whether the data
/// proof verified and whether data went both ways.
pub struct DataVerificationResult {
    /// Whether the checksums of the exchanged data matched.
    pub proof_verified: bool,
    /// Whether data went both ways.
    pub proof_bidirectional: bool,
    /// Remote address used.
    pub remote_addr: Option<SocketAddress>,
    /// IP version.
    pub ip_version: IpVersion,
    /// Who opened the connection.
    pub direction: ConnectionDirection,
    /// When the exchange was made, in milliseconds since the Unix epoch.
    pub timestamp_ms: u64,
}

/// Mathematical value of a [`DataVerificationResult`].
pub struct DataVerificationView {
    pub verified: bool,
    pub bidirectional: bool,
    pub remote_addr: Option<SocketAddressView>,
    pub ip_version: IpVersion,
    pub direction: ConnectionDirection,
    pub timestamp_ms: u64,
}

impl View for DataVerificationResult {
    type V = DataVerificationView;

    open spec fn view(&self) -> DataVerificationView {
        DataVerificationView {
            verified: self.proof_verified,
            bidirectional: self.proof_bidirectional,
            remote_addr: match self.remote_addr {
                Some(a) => Some(a@),
                None => None,
            },
            ip_version: self.ip_version,
            direction: self.direction,
            timestamp_ms: self.timestamp_ms,
        }
    }
}

/// A verification succeeded: the proof verified and data went both ways.
pub open spec fn succeeded(d: DataVerificationView) -> bool {
    d.verified && d.bidirectional
}

impl DataVerificationResult {
    /// A result made now from a data proof's outcome.
    pub fn success(
        proof_verified: bool,
        proof_bidirectional: bool,
        remote_addr: Option<SocketAddress>,
        ip_version: IpVersion,
        direction: ConnectionDirection,
    ) -> (r: Self)
        ensures
            r.proof_verified == proof_verified,
            r.proof_bidirectional == proof_bidirectional,
            r.remote_addr == remote_addr,
            r.ip_version == ip_version,
            r.direction == direction,
    {
        DataVerificationResult {
            proof_verified,
            proof_bidirectional,
            remote_addr,
            ip_version,
            direction,
            timestamp_ms: unix_time_ms(),
        }
    }

    /// A failed verification, made now.
    pub fn failed(ip_version: IpVersion, direction: ConnectionDirection) -> (r: Self)
        ensures
            !r.proof_verified,
            !r.proof_bidirectional,
            r.remote_addr is None,
            r.ip_version == ip_version,
            r.direction == direction,
    {
        DataVerificationResult {
            proof_verified: false,
            proof_bidirectional: false,
            remote_addr: None,
            ip_version,
            direction,
            timestamp_ms: unix_time_ms(),
        }
    }

    /// Whether the verification succeeded.
    pub fn is_success(&self) -> (r: bool)
        ensures
            r == succeeded(self@),
    {
        self.proof_verified && self.proof_bidirectional
    }

    /// An independent copy.
    pub fn duplicate(&self) -> (r: Self)
        ensures
            r@ == self@,
    {
        DataVerificationResult {
            proof_verified: self.proof_verified,
            proof_bidirectional: self.proof_bidirectional,
            remote_addr: self.remote_addr,
            ip_version: self.ip_version,
            direction: self.direction,
            timestamp_ms: self.timestamp_ms,
        }
    }
}

/// Counts of the data verifications of a node.
pub struct VerificationSummary {
    /// Verifications made.
    pub total_tests: usize,
    /// Verifications that succeeded.
    pub verified_count: usize,
    /// Verifications that failed.
    pub failed_count: usize,
    /// Successful verifications over IPv4.
    pub ipv4_verified: usize,
    /// Successful verifications over IPv6.
    pub ipv6_verified: usize,
    /// Successful verifications of connections we opened.
    pub outbound_verified: usize,
    /// Successful verifications of connections the peer opened.
    pub inbound_verified: usize,
}

/// Mathematical value of a [`VerificationSummary`].
pub struct SummaryView {
    pub total: nat,
    pub verified: nat,
    pub failed: nat,
    pub ipv4: nat,
    pub ipv6: nat,
    pub outbound: nat,
    pub inbound: nat,
}

impl View for VerificationSummary {
    type V = SummaryView;

    open spec fn view(&self) -> SummaryView {
        SummaryView {
            total: self.total_tests as nat,
            verified: self.verified_count as nat,
            failed: self.failed_count as nat,
            ipv4: self.ipv4_verified as nat,
            ipv6: self.ipv6_verified as nat,
            outbound: self.outbound_verified as nat,
            inbound: self.inbound_verified as nat,
        }
    }
}

/// All counts zero.
pub open spec fn zero_summary() -> SummaryView {
    SummaryView { total: 0, verified: 0, failed: 0, ipv4: 0, ipv6: 0, outbound: 0, inbound: 0 }
}

/// Counts of one more verification.
pub open spec fn count_one(s: SummaryView, d: DataVerificationView) -> SummaryView {
    if succeeded(d) {
        SummaryView {
            total: s.total + 1,
            verified: s.verified + 1,
            ipv4: s.ipv4 + if d.ip_version == IpVersion::V4 { 1nat } else { 0nat },
            ipv6: s.ipv6 + if d.ip_version == IpVersion::V6 { 1nat } else { 0nat },
            outbound: s.outbound + if d.direction == ConnectionDirection::Outbound { 1nat } else { 0nat },
            inbound: s.inbound + if d.direction == ConnectionDirection::Inbound { 1nat } else { 0nat },
            ..s
        }
    } else {
        SummaryView { total: s.total + 1, failed: s.failed + 1, ..s }
    }
}

/// Counts of the verifications `vs`.
pub open spec fn summary_of(vs: Seq<DataVerificationView>) -> SummaryView
    decreases vs.len(),
{
    if vs.len() == 0 {
        zero_summary()
    } else {
        count_one(summary_of(vs.drop_last()), vs.last())
    }
}

/// Sum of two summaries.
pub open spec fn add_summaries(a: SummaryView, b: SummaryView) -> SummaryView {
    SummaryView {
        total: a.total + b.total,
        verified: a.verified + b.verified,
        failed: a.failed + b.failed,
        ipv4: a.ipv4 + b.ipv4,
        ipv6: a.ipv6 + b.ipv6,
        outbound: a.outbound + b.outbound,
        inbound: a.inbound + b.inbound,
    }
}

/// No count of a summary exceeds the number of verifications.
proof fn lemma_summary_bounds(vs: Seq<DataVerificationView>)
    ensures
        summary_of(vs).total == vs.len(),
        summary_of(vs).verified + summary_of(vs).failed == vs.len(),
        summary_of(vs).ipv4 <= summary_of(vs).verified,
        summary_of(vs).ipv6 <= summary_of(vs).verified,
        summary_of(vs).outbound <= summary_of(vs).verified,
        summary_of(vs).inbound <= summary_of(vs).verified,
        summary_of(vs).ipv4 + summary_of(vs).ipv6 == summary_of(vs).verified,
        summary_of(vs).outbound + summary_of(vs).inbound == summary_of(vs).verified,
    decreases vs.len(),
{
    if vs.len() > 0 {
        lemma_summary_bounds(vs.drop_last());
    }
}

/// Law of the verification summaries (see
/// [`ProofOrchestrator::get_verification_summary`]): every data verification
/// of a node is counted once as verified or failed, and every verified one
/// once by IP version and once by direction.
pub proof fn lemma_summary_balanced(st: NodeStateView)
    ensures
        node_summary(st).total == st.verifications.len(),
        node_summary(st).total == node_summary(st).verified + node_summary(st).failed,
        node_summary(st).verified == node_summary(st).ipv4 + node_summary(st).ipv6,
        node_summary(st).verified == node_summary(st).outbound + node_summary(st).inbound,
{
    lemma_summary_bounds(values_of(st.verifications));
}

impl Default for VerificationSummary {
    fn default() -> (s: Self)
        ensures
            s@ == zero_summary(),
    {
        VerificationSummary {
            total_tests: 0,
            verified_count: 0,
            failed_count: 0,
            ipv4_verified: 0,
            ipv6_verified: 0,
            outbound_verified: 0,
            inbound_verified: 0,
        }
    }
}

impl VerificationSummary {
    /// Whether some connection was verified.
    pub fn has_verified_connections(&self) -> (r: bool)
        ensures
            r == (self.verified_count > 0),
    {
        self.verified_count > 0
    }

    /// Whether connections were verified over both IPv4 and IPv6.
    pub fn has_dual_stack(&self) -> (r: bool)
        ensures
            r == (self.ipv4_verified > 0 && self.ipv6_verified > 0),
    {
        self.ipv4_verified > 0 && self.ipv6_verified > 0
    }

    /// Whether connections were verified in both directions.
    pub fn has_bidirectional(&self) -> (r: bool)
        ensures
            r == (self.outbound_verified > 0 && self.inbound_verified > 0),
    {
        self.outbound_verified > 0 && self.inbound_verified > 0
    }
}

// ---------------------------------------------------------------------------
// Steps and reports
// ---------------------------------------------------------------------------

/// Settings of the orchestrator.
pub struct ProofOrchestratorConfig {
    /// The observing node.
    pub observer_id: String,
    /// Oldest acceptable proof, in seconds.
    pub max_proof_age_secs: u64,
    /// Whether to investigate the logs when a step fails.
    pub debug_on_failure: bool,
    /// Settings of the CRDT verifier.
    pub crdt_config: CrdtVerifierConfig,
    /// Settings of the debugger.
    pub debug_config: DebuggerConfig,
    /// Fewest nodes for a valid test.
    pub min_nodes: usize,
    /// Whether nodes must agree on their connections.
    pub require_cross_validation: bool,
}

impl Default for ProofOrchestratorConfig {
    fn default() -> (c: Self)
        ensures
            c.observer_id@ == "orchestrator"@,
            c.max_proof_age_secs == 30,
            c.debug_on_failure,
            c.crdt_config.convergence_timeout_ms == 30_000,
            c.crdt_config.poll_interval_ms == 100,
            c.crdt_config.min_nodes == 2,
            c.crdt_config.verify_conflict_resolution,
            c.debug_config.max_log_lines == 10_000,
            c.debug_config.correlation_window_ms == 5000,
            pattern_views(c.debug_config.error_patterns@) == default_patterns_spec(),
            c.debug_config.min_severity == Severity::Warning,
            c.min_nodes == 2,
            c.require_cross_validation,
    {
        ProofOrchestratorConfig {
            observer_id: owned("orchestrator"),
            max_proof_age_secs: 30,
            debug_on_failure: true,
            crdt_config: CrdtVerifierConfig::default(),
            debug_config: DebuggerConfig::default(),
            min_nodes: 2,
            require_cross_validation: true,
        }
    }
}

/// Result of one step of a run.
pub struct StepResult {
    /// Step name.
    pub name: String,
    /// Whether it passed.
    pub passed: bool,
    /// Time it took, in milliseconds.
    pub duration_ms: u64,
    /// What was found.
    pub details: String,
    /// Anomalies found.
    pub anomalies: Vec<TestAnomaly>,
}

impl StepResult {
    /// A pass of step `name`.
    pub fn pass(name: &str, duration_ms: u64, details: String) -> (r: Self)
        ensures
            r.name@ == name@,
            r.passed,
            r.duration_ms == duration_ms,
            r.details@ == details@,
            r.anomalies@.len() == 0,
    {
        StepResult { name: owned(name), passed: true, duration_ms, details, anomalies: Vec::new() }
    }

    /// A failure of step `name`, with the anomalies found.
    pub fn fail(name: &str, duration_ms: u64, details: String, anomalies: Vec<TestAnomaly>) -> (r: Self)
        ensures
            r.name@ == name@,
            !r.passed,
            r.duration_ms == duration_ms,
            r.details@ == details@,
            r.anomalies@ == anomalies@,
    {
        StepResult { name: owned(name), passed: false, duration_ms, details, anomalies }
    }
}

/// Report of a complete run.
pub struct OrchestratorReport {
    /// Session of the run.
    pub session_id: String,
    /// When it started, in milliseconds since the Unix epoch.
    pub started_at_ms: u64,
    /// When it completed, in milliseconds since the Unix epoch.
    pub completed_at_ms: u64,
    /// Whether every step passed.
    pub passed: bool,
    /// Results of the steps, in order.
    pub step_results: Vec<StepResult>,
    /// Connectivity proof.
    pub connectivity_proof: Option<NetworkConnectivityProof>,
    /// CRDT convergence proof.
    pub crdt_proof: Option<CrdtConvergenceProof>,
    /// Investigation of the logs, when a step failed and investigation is on.
    pub debug_report: Option<DebugReport>,
    /// Anomalies of all steps, in order.
    pub all_anomalies: Vec<TestAnomaly>,
    /// What failed, when something did.
    pub failure_summary: Option<String>,
}

// ---------------------------------------------------------------------------
// Node states
// ---------------------------------------------------------------------------

/// What the orchestrator knows of a node.
pub struct NodeState {
    /// Node identifier.
    pub node_id: String,
    /// Peers it is connected to.
    pub connected_peers: Vec<String>,
    /// Address of each peer.
    pub peer_addresses: KeyedList<SocketAddress>,
    /// Its latest CRDT state hash.
    pub state_hash: Option<[u8; 32]>,
    /// Whether it responds.
    pub responsive: bool,
    /// When it was last updated, in milliseconds since the Unix epoch.
    pub last_updated_ms: u64,
    /// Data verifications, by peer, IP version and direction.
    pub data_verifications: KeyedList<DataVerificationResult>,
}

/// Mathematical value of a [`NodeState`] (its update time aside).
pub struct NodeStateView {
    pub node_id: Seq<char>,
    pub connected_peers: Seq<Seq<char>>,
    pub peer_addresses: Seq<(Seq<char>, SocketAddressView)>,
    pub state_hash: Option<[u8; 32]>,
    pub responsive: bool,
    pub verifications: Seq<(Seq<char>, DataVerificationView)>,
}

impl View for NodeState {
    type V = NodeStateView;

    open spec fn view(&self) -> NodeStateView {
        NodeStateView {
            node_id: self.node_id@,
            connected_peers: string_views(self.connected_peers@),
            peer_addresses: viewed(self.peer_addresses@),
            state_hash: self.state_hash,
            responsive: self.responsive,
            verifications: viewed(self.data_verifications@),
        }
    }
}

impl NodeState {
    /// The tables of the node have unique keys.
    pub open spec fn wf(&self) -> bool {
        unique_keys(self.peer_addresses@) && unique_keys(self.data_verifications@)
    }
}

/// A node just registered: responsive, nothing recorded.
pub open spec fn fresh_node(id: Seq<char>) -> NodeStateView {
    NodeStateView {
        node_id: id,
        connected_peers: Seq::empty(),
        peer_addresses: Seq::empty(),
        state_hash: None,
        responsive: true,
        verifications: Seq::empty(),
    }
}

/// The entries of `peers` other than `p`, in order.
pub open spec fn peers_except(peers: Seq<Seq<char>>, p: Seq<char>) -> Seq<Seq<char>>
    decreases peers.len(),
{
    if peers.len() == 0 {
        Seq::empty()
    } else {
        let rest = peers_except(peers.drop_last(), p);
        if peers.last() == p { rest } else { rest.push(peers.last()) }
    }
}

/// A node of a full mesh of `peers`: just registered, connected to every
/// other peer.
pub open spec fn mesh_node(peers: Seq<Seq<char>>, p: Seq<char>) -> NodeStateView {
    NodeStateView { connected_peers: peers_except(peers, p), ..fresh_node(p) }
}

/// The node table after registering the first `n` of `peers`, in order, as
/// a full mesh of all of `peers`.
pub open spec fn mesh_registered(nodes: Seq<(Seq<char>, NodeStateView)>, peers: Seq<Seq<char>>, n: nat) -> Seq<(Seq<char>, NodeStateView)>
    decreases n,
{
    if n == 0 || n > peers.len() {
        nodes
    } else {
        upsert(mesh_registered(nodes, peers, (n - 1) as nat), peers[n - 1], mesh_node(peers, peers[n - 1]))
    }
}

/// Storing two values under one key leaves the second, in the place the
/// first took.
proof fn lemma_upsert_twice<V>(s: Seq<(Seq<char>, V)>, k: Seq<char>, a: V, b: V)
    requires
        unique_keys(s),
    ensures
        upsert(upsert(s, k, a), k, b) == upsert(s, k, b),
{
    let t = upsert(s, k, a);
    crate::keyed::lemma_upsert(s, k, a);
    if has_key(s, k) {
        let p = key_pos(s, k);
        assert(s[p].0 == k);
        assert(t[p].0 == k);
        lemma_lookup_at(t, p);
        assert(upsert(t, k, b) =~= upsert(s, k, b));
    } else {
        let p = s.len() as int;
        assert(t[p].0 == k);
        lemma_lookup_at(t, p);
        assert(upsert(t, k, b) =~= upsert(s, k, b));
    }
}

/// The entries of `peers` other than `p`, in order.
fn others_than(peers: &Vec<String>, p: &str) -> (r: Vec<String>)
    ensures
        string_views(r@) == peers_except(string_views(peers@), p@),
{
    let ghost views = string_views(peers@);
    let mut r: Vec<String> = Vec::new();
    let mut j: usize = 0;
    while j < peers.len()
        invariant
            views == string_views(peers@),
            0 <= j <= peers@.len(),
            string_views(r@) == peers_except(views.take(j as int), p@),
        decreases peers@.len() - j,
    {
        let q = &peers[j];
        assert(views.take(j + 1).drop_last() =~= views.take(j as int));
        assert(views.take(j + 1).last() == q@);
        if !str_eq(q.as_str(), p) {
            r.push(q.clone());
            assert(string_views(r@) =~= peers_except(views.take(j as int), p@).push(q@));
        }
        j = j + 1;
    }
    assert(views.take(peers@.len() as int) =~= views);
    r
}

/// The values of a table, in order.
pub open spec fn values_of<V>(s: Seq<(Seq<char>, V)>) -> Seq<V> {
    s.map_values(|e: (Seq<char>, V)| e.1)
}

/// Counts of the data verifications of a node.
pub open spec fn node_summary(st: NodeStateView) -> SummaryView {
    summary_of(values_of(st.verifications))
}

/// The key under which a verification with `peer`, version `v` and
/// direction `d` is kept: `peer:v4:out` and the like.
pub open spec fn verification_key(peer: Seq<char>, v: IpVersion, d: ConnectionDirection) -> Seq<char> {
    peer + ":"@ + (if v == IpVersion::V4 { "v4"@ } else { "v6"@ }) + ":"@
        + (if d == ConnectionDirection::Outbound { "out"@ } else { "in"@ })
}

/// The orchestrator `o` after recording the data verification `r` of the
/// connection of `node` with `peer`: stored under its key in the node's
/// table, replacing one of the same key; an unknown node is left alone.
pub open spec fn with_verification(o: ProofOrchestratorView, node: Seq<char>, peer: Seq<char>, r: DataVerificationView) -> ProofOrchestratorView {
    ProofOrchestratorView {
        nodes: if has_key(o.nodes, node) {
            o.nodes.update(key_pos(o.nodes, node), (node, NodeStateView {
                verifications: upsert(o.nodes[key_pos(o.nodes, node)].1.verifications,
                    verification_key(peer, r.ip_version, r.direction), r),
                ..o.nodes[key_pos(o.nodes, node)].1
            }))
        } else {
            o.nodes
        },
        ..o
    }
}

/// Verifications share their key exactly when they have the same peer, the
/// same IP version and the same direction.
pub proof fn lemma_verification_key_injective(p1: Seq<char>, v1: IpVersion, d1: ConnectionDirection, p2: Seq<char>, v2: IpVersion, d2: ConnectionDirection)
    ensures
        verification_key(p1, v1, d1) == verification_key(p2, v2, d2) <==> (p1 == p2 && v1 == v2 && d1 == d2),
{
    reveal_strlit(":");
    reveal_strlit("v4");
    reveal_strlit("v6");
    reveal_strlit("out");
    reveal_strlit("in");
    let k1 = verification_key(p1, v1, d1);
    let k2 = verification_key(p2, v2, d2);
    if k1 == k2 {
        assert(k1[k1.len() - 1] == if d1 == ConnectionDirection::Outbound { 't' } else { 'n' });
        assert(k2[k2.len() - 1] == if d2 == ConnectionDirection::Outbound { 't' } else { 'n' });
        assert(d1 == d2);
        assert(p1.len() == p2.len());
        let n = p1.len() as int;
        assert(k1[n + 2] == if v1 == IpVersion::V4 { '4' } else { '6' });
        assert(k2[n + 2] == if v2 == IpVersion::V4 { '4' } else { '6' });
        assert(k1.subrange(0, n) =~= p1);
        assert(k2.subrange(0, n) =~= p2);
    }
}

/// Recording a second verification of the same connection (same peer, IP
/// version and direction) replaces the first: the result is as if only the
/// second had been recorded.
pub proof fn lemma_same_connection_replaced(o: ProofOrchestratorView, node: Seq<char>, peer: Seq<char>, a: DataVerificationView, b: DataVerificationView)
    requires
        unique_keys(o.nodes),
        has_key(o.nodes, node) ==> unique_keys(o.nodes[key_pos(o.nodes, node)].1.verifications),
        a.ip_version == b.ip_version,
        a.direction == b.direction,
    ensures
        with_verification(with_verification(o, node, peer, a), node, peer, b) == with_verification(o, node, peer, b),
{
    if has_key(o.nodes, node) {
        let p = key_pos(o.nodes, node);
        assert(o.nodes[p].0 == node);
        let k = verification_key(peer, a.ip_version, a.direction);
        let s0 = o.nodes[p].1.verifications;
        lemma_upsert_twice(s0, k, a, b);
        let o1 = with_verification(o, node, peer, a);
        assert(unique_keys(o1.nodes)) by {
            assert forall|i: int| 0 <= i < o1.nodes.len() implies #[trigger] o1.nodes[i].0 == o.nodes[i].0 by {}
        }
        lemma_lookup_at(o1.nodes, p);
        let o2 = with_verification(o1, node, peer, b);
        let ob = with_verification(o, node, peer, b);
        assert(o2.nodes =~= ob.nodes);
    }
}

/// Recording a verification with a peer in one direction and then one in
/// the other direction, with the same IP version, keeps both: the node
/// holds each under its own key, and a node that held none counts both.
pub proof fn lemma_both_directions_kept(o: ProofOrchestratorView, node: Seq<char>, peer: Seq<char>, a: DataVerificationView, b: DataVerificationView)
    requires
        unique_keys(o.nodes),
        has_key(o.nodes, node),
        unique_keys(o.nodes[key_pos(o.nodes, node)].1.verifications),
        a.ip_version == b.ip_version,
        a.direction != b.direction,
    ensures
        ({
            let after = with_verification(with_verification(o, node, peer, a), node, peer, b);
            let st = after.nodes[key_pos(after.nodes, node)].1;
            &&& has_key(after.nodes, node)
            &&& lookup(st.verifications, verification_key(peer, a.ip_version, a.direction)) == Some(a)
            &&& lookup(st.verifications, verification_key(peer, b.ip_version, b.direction)) == Some(b)
            &&& o.nodes[key_pos(o.nodes, node)].1.verifications.len() == 0
                ==> node_summary(st) == count_one(count_one(zero_summary(), a), b)
        }),
{
    let p = key_pos(o.nodes, node);
    assert(o.nodes[p].0 == node);
    let ka = verification_key(peer, a.ip_version, a.direction);
    let kb = verification_key(peer, b.ip_version, b.direction);
    lemma_verification_key_injective(peer, a.ip_version, a.direction, peer, b.ip_version, b.direction);
    let s0 = o.nodes[p].1.verifications;
    let s1 = upsert(s0, ka, a);
    let s2 = upsert(s1, kb, b);
    crate::keyed::lemma_upsert(s0, ka, a);
    crate::keyed::lemma_upsert(s1, kb, b);
    let o1 = with_verification(o, node, peer, a);
    assert(unique_keys(o1.nodes)) by {
        assert forall|i: int| 0 <= i < o1.nodes.len() implies #[trigger] o1.nodes[i].0 == o.nodes[i].0 by {}
    }
    lemma_lookup_at(o.nodes, p);
    lemma_lookup_at(o1.nodes, p);
    assert(o1.nodes[p].1.verifications == s1);
    let o2 = with_verification(o1, node, peer, b);
    assert(unique_keys(o2.nodes)) by {
        assert forall|i: int| 0 <= i < o2.nodes.len() implies #[trigger] o2.nodes[i].0 == o1.nodes[i].0 by {}
    }
    lemma_lookup_at(o2.nodes, p);
    assert(o2.nodes[p].1.verifications == s2);
    assert(has_key(o2.nodes, node));
    assert(key_pos(o2.nodes, node) == p);
    assert(lookup(s2, ka) == Some(a));
    assert(lookup(s2, kb) == Some(b));
    if s0.len() == 0 {
        assert(!has_key(s0, ka));
        assert(s1 =~= seq![(ka, a)]);
        assert(!has_key(s1, kb)) by {
            if has_key(s1, kb) {
                let i = choose|i: int| 0 <= i < s1.len() && #[trigger] s1[i].0 == kb;
                assert(i == 0);
            }
        }
        assert(s2 =~= seq![(ka, a), (kb, b)]);
        let vs = values_of(s2);
        assert(vs =~= seq![a, b]);
        assert(vs.drop_last() =~= seq![a]);
        assert(vs.drop_last().drop_last() =~= Seq::<DataVerificationView>::empty());
        assert(summary_of(vs.drop_last().drop_last()) == zero_summary());
        assert(summary_of(vs.drop_last()) == count_one(zero_summary(), a));
        assert(summary_of(vs) == count_one(count_one(zero_summary(), a), b));
        assert(node_summary(o2.nodes[p].1) == count_one(count_one(zero_summary(), a), b));
    }
}

// ---------------------------------------------------------------------------
// Connectivity figures
// ---------------------------------------------------------------------------

/// Sum over the nodes of their numbers of connected peers.
pub open spec fn total_peers(nodes: Seq<(Seq<char>, NodeStateView)>) -> nat
    decreases nodes.len(),
{
    if nodes.len() == 0 { 0 } else { total_peers(nodes.drop_last()) + nodes.last().1.connected_peers.len() }
}

/// Sum over the nodes of their summaries.
pub open spec fn total_summary(nodes: Seq<(Seq<char>, NodeStateView)>) -> SummaryView
    decreases nodes.len(),
{
    if nodes.len() == 0 { zero_summary() } else { add_summaries(total_summary(nodes.drop_last()), node_summary(nodes.last().1)) }
}

/// Among `vs`, the successful verifications and all verifications with
/// IP version `v`.
pub open spec fn version_tally(vs: Seq<DataVerificationView>, v: IpVersion) -> (nat, nat)
    decreases vs.len(),
{
    if vs.len() == 0 {
        (0, 0)
    } else {
        let prev = version_tally(vs.drop_last(), v);
        let d = vs.last();
        if d.ip_version == v {
            (prev.0 + if succeeded(d) { 1nat } else { 0nat }, prev.1 + 1)
        } else {
            prev
        }
    }
}

/// Among `vs`, the successful verifications and all verifications of
/// connections opened in direction `dir`.
pub open spec fn direction_tally(vs: Seq<DataVerificationView>, dir: ConnectionDirection) -> (nat, nat)
    decreases vs.len(),
{
    if vs.len() == 0 {
        (0, 0)
    } else {
        let prev = direction_tally(vs.drop_last(), dir);
        let d = vs.last();
        if d.direction == dir {
            (prev.0 + if succeeded(d) { 1nat } else { 0nat }, prev.1 + 1)
        } else {
            prev
        }
    }
}

/// Over all nodes, the successful and all verifications with IP version `v`.
pub open spec fn version_counts(nodes: Seq<(Seq<char>, NodeStateView)>, v: IpVersion) -> (nat, nat)
    decreases nodes.len(),
{
    if nodes.len() == 0 {
        (0, 0)
    } else {
        let prev = version_counts(nodes.drop_last(), v);
        let mine = version_tally(values_of(nodes.last().1.verifications), v);
        (prev.0 + mine.0, prev.1 + mine.1)
    }
}

/// Over all nodes, the successful and all verifications in direction `dir`.
pub open spec fn direction_counts(nodes: Seq<(Seq<char>, NodeStateView)>, dir: ConnectionDirection) -> (nat, nat)
    decreases nodes.len(),
{
    if nodes.len() == 0 {
        (0, 0)
    } else {
        let prev = direction_counts(nodes.drop_last(), dir);
        let mine = direction_tally(values_of(nodes.last().1.verifications), dir);
        (prev.0 + mine.0, prev.1 + mine.1)
    }
}

/// The figures of one node: `id:peers/verifiedv`.
pub open spec fn node_line(e: (Seq<char>, NodeStateView)) -> Seq<char> {
    e.0 + ":"@ + decimal(e.1.connected_peers.len()) + "/"@ + decimal(node_summary(e.1).verified) + "v"@
}

/// Details of a connectivity step over `nodes`: nodes, connections and the
/// share of a full mesh they make, verified connections and the rate of
/// success of the verifications (100% when none was made), and the
/// figures of each node.
pub open spec fn connectivity_details(nodes: Seq<(Seq<char>, NodeStateView)>) -> Seq<char> {
    let n = nodes.len();
    let c = total_peers(nodes);
    let full = n * (n - 1);
    let mesh = if full > 0 { rounded_percent(c, full as nat) } else { 100 };
    let s = total_summary(nodes);
    let rate = if s.total > 0 { rounded_percent(s.verified, s.total) } else { 100 };
    decimal(n) + " nodes, "@ + decimal(c) + " connections ("@ + decimal(mesh) + "% mesh), "@
        + decimal(s.verified) + " verified ("@ + decimal(rate) + "% rate), ["@
        + joined(nodes.map_values(|e: (Seq<char>, NodeStateView)| node_line(e)), ", "@) + "]"@
}

/// Fewer connections and verifications are recorded than a machine can
/// hold strings and results.
pub open spec fn within_memory(nodes: Seq<(Seq<char>, NodeStateView)>) -> bool {
    total_peers(nodes) <= u64::MAX && total_summary(nodes).total <= u64::MAX
}

// ---------------------------------------------------------------------------
// The orchestrator
// ---------------------------------------------------------------------------

/// Mathematical value of a [`ProofOrchestrator`].
pub struct ProofOrchestratorView {
    pub observer_id: Seq<char>,
    pub max_proof_age_secs: u64,
    pub debug_on_failure: bool,
    pub min_nodes: usize,
    pub require_cross_validation: bool,
    pub session_id: Seq<char>,
    pub nodes: Seq<(Seq<char>, NodeStateView)>,
    pub crdt: CrdtVerifierView,
    pub debugger: AutomatedDebuggerView,
}

/// `p` is the connectivity proof of an orchestrator in state `o`: its
/// observer, the registered nodes as expected and observed peers, the
/// distinct peers each node sees, and the observer's attestation.
pub open spec fn is_connectivity_proof(p: NetworkConnectivityProof, o: ProofOrchestratorView) -> bool {
    &&& p.observer_id@ == o.observer_id
    &&& string_views(p.expected_peers@) == keys_of(o.nodes)
    &&& string_views(p.observed_peers@) == keys_of(o.nodes)
    &&& keys_of(p.connectivity_matrix@) == keys_of(o.nodes)
    &&& forall|i: int| 0 <= i < o.nodes.len() ==>
        string_views((#[trigger] p.connectivity_matrix@[i]).1@) == first_occurrences(o.nodes[i].1.connected_peers)
    &&& p.attestation.node_id@ == o.observer_id
    &&& p.attestation.proof_type == ProofType::Connectivity
    &&& p.attestation.data_hash@ == seq![0u8; 32]
}

/// The debugger in state `d` works with the settings `c`.
pub open spec fn debugger_follows(d: AutomatedDebuggerView, c: DebuggerConfig) -> bool {
    &&& d.max_log_lines == c.max_log_lines
    &&& d.correlation_window_ms == c.correlation_window_ms
    &&& d.patterns == pattern_views(c.error_patterns@)
    &&& d.min_severity == c.min_severity
}

/// Coordinates the steps of a proof-based test and makes the proofs.
pub struct ProofOrchestrator {
    config: ProofOrchestratorConfig,
    crdt_verifier: CrdtVerifier,
    debugger: AutomatedDebugger,
    node_states: KeyedList<NodeState>,
    session_id: String,
}

impl View for ProofOrchestrator {
    type V = ProofOrchestratorView;

    closed spec fn view(&self) -> ProofOrchestratorView {
        ProofOrchestratorView {
            observer_id: self.config.observer_id@,
            max_proof_age_secs: self.config.max_proof_age_secs,
            debug_on_failure: self.config.debug_on_failure,
            min_nodes: self.config.min_nodes,
            require_cross_validation: self.config.require_cross_validation,
            session_id: self.session_id@,
            nodes: viewed(self.node_states@),
            crdt: self.crdt_verifier@,
            debugger: self.debugger@,
        }
    }
}

/// The node at a position of a table of node states, with its view.
proof fn lemma_node_view(s: Seq<(Seq<char>, NodeState)>, i: int)
    requires
        0 <= i < s.len(),
    ensures
        viewed(s)[i] == (s[i].0, s[i].1@),
        viewed(s).len() == s.len(),
{
}

impl NodeState {
    /// A node just registered, updated now.
    pub fn fresh(node_id: String) -> (st: Self)
        ensures
            st@ == fresh_node(node_id@),
            st.wf(),
    {
        let st = NodeState {
            node_id,
            connected_peers: Vec::new(),
            peer_addresses: KeyedList::new(),
            state_hash: None,
            responsive: true,
            last_updated_ms: unix_time_ms(),
            data_verifications: KeyedList::new(),
        };
        assert(st@.connected_peers =~= Seq::<Seq<char>>::empty());
        assert(st@.peer_addresses =~= Seq::<(Seq<char>, SocketAddressView)>::empty());
        assert(st@.verifications =~= Seq::<(Seq<char>, DataVerificationView)>::empty());
        st
    }

    /// Counts of the node's data verifications.
    pub fn summary(&self) -> (s: VerificationSummary)
        ensures
            s@ == node_summary(self@),
    {
        let ghost vs = values_of(self@.verifications);
        let n = self.data_verifications.len();
        let mut s = VerificationSummary::default();
        let mut i: usize = 0;
        while i < n
            invariant
                n == self.data_verifications@.len(),
                vs == values_of(self@.verifications),
                vs.len() == n,
                0 <= i <= n,
                s@ == summary_of(vs.take(i as int)),
            decreases n - i,
        {
            let d = self.data_verifications.value_at(i);
            assert(vs[i as int] == d@);
            assert(vs.take(i + 1).drop_last() =~= vs.take(i as int));
            assert(vs.take(i + 1).last() == d@);
            proof { lemma_summary_bounds(vs.take(i as int)); }
            s.total_tests = s.total_tests + 1;
            if d.is_success() {
                s.verified_count = s.verified_count + 1;
                match d.ip_version {
                    IpVersion::V4 => { s.ipv4_verified = s.ipv4_verified + 1; },
                    IpVersion::V6 => { s.ipv6_verified = s.ipv6_verified + 1; },
                }
                match d.direction {
                    ConnectionDirection::Outbound => { s.outbound_verified = s.outbound_verified + 1; },
                    ConnectionDirection::Inbound => { s.inbound_verified = s.inbound_verified + 1; },
                }
            } else {
                s.failed_count = s.failed_count + 1;
            }
            i = i + 1;
        }
        assert(vs.take(n as int) =~= vs);
        s
    }
}

impl ProofOrchestrator {
    /// The orchestrator's tables are consistent.
    pub closed spec fn wf(&self) -> bool {
        &&& unique_keys(self.node_states@)
        &&& forall|i: int| 0 <= i < self.node_states@.len() ==> (#[trigger] self.node_states@[i]).1.wf()
        &&& self.crdt_verifier.wf()
        &&& self.crdt_verifier@.config == self.config.crdt_config
        &&& debugger_follows(self.debugger@, self.config.debug_config)
    }

    /// An orchestrator with the default settings.
    pub fn new() -> (o: Self)
        ensures
            o.wf(),
            o@.observer_id == "orchestrator"@,
            o@.max_proof_age_secs == 30,
            o@.min_nodes == 2,
            o@.debug_on_failure,
            o@.require_cross_validation,
            o@.nodes.len() == 0,
            o@.crdt.crdt_type == CrdtType::PeerCache,
            o@.crdt.config == (CrdtVerifierConfig {
                convergence_timeout_ms: 30_000,
                poll_interval_ms: 100,
                min_nodes: 2,
                verify_conflict_resolution: true,
            }),
            o@.crdt.operations.len() == 0,
            o@.crdt.initial.len() == 0,
            o@.crdt.current.len() == 0,
            !o@.crdt.converged(),
            o@.debugger.max_log_lines == 10_000,
            o@.debugger.correlation_window_ms == 5000,
            o@.debugger.patterns == default_patterns_spec(),
            o@.debugger.min_severity == Severity::Warning,
            o@.debugger.logs.len() == 0,
            is_hyphenated_uuid(o@.session_id),
    {
        Self::with_config(ProofOrchestratorConfig::default())
    }

    /// An orchestrator with settings `config`, no nodes and a fresh random
    /// session identifier.
    pub fn with_config(config: ProofOrchestratorConfig) -> (o: Self)
        ensures
            o.wf(),
            o@.observer_id == config.observer_id@,
            o@.max_proof_age_secs == config.max_proof_age_secs,
            o@.debug_on_failure == config.debug_on_failure,
            o@.min_nodes == config.min_nodes,
            o@.require_cross_validation == config.require_cross_validation,
            o@.nodes.len() == 0,
            o@.crdt.crdt_type == CrdtType::PeerCache,
            o@.crdt.config == config.crdt_config,
            o@.crdt.operations.len() == 0,
            o@.crdt.initial.len() == 0,
            o@.crdt.current.len() == 0,
            !o@.crdt.converged(),
            o@.debugger.logs.len() == 0,
            debugger_follows(o@.debugger, config.debug_config),
            is_hyphenated_uuid(o@.session_id),
    {
        let crdt_verifier = CrdtVerifier::with_config(CrdtType::PeerCache, config.crdt_config);
        let debugger = AutomatedDebugger::with_config(config.debug_config.duplicate());
        let o = ProofOrchestrator {
            config,
            crdt_verifier,
            debugger,
            node_states: KeyedList::new(),
            session_id: new_uuid_v4(),
        };
        assert(o@.nodes =~= Seq::<(Seq<char>, NodeStateView)>::empty());
        o
    }

    /// The session identifier.
    pub fn session_id(&self) -> (s: &str)
        ensures
            s@ == self@.session_id,
    {
        self.session_id.as_str()
    }

    /// The settings.
    pub fn config(&self) -> (c: &ProofOrchestratorConfig)
        requires
            self.wf(),
        ensures
            c.observer_id@ == self@.observer_id,
            c.max_proof_age_secs == self@.max_proof_age_secs,
            c.debug_on_failure == self@.debug_on_failure,
            c.min_nodes == self@.min_nodes,
            c.require_cross_validation == self@.require_cross_validation,
            c.crdt_config == self@.crdt.config,
            debugger_follows(self@.debugger, c.debug_config),
    {
        &self.config
    }

    /// Number of registered nodes.
    pub fn node_count(&self) -> (n: usize)
        ensures
            n == self@.nodes.len(),
    {
        self.node_states.len()
    }

    /// Stores `st` as the state of `node_id`, replacing an earlier one.
    fn store_node(&mut self, node_id: String, st: NodeState)
        requires
            old(self).wf(),
            st.wf(),
        ensures
            final(self).wf(),
            final(self)@ == (ProofOrchestratorView { nodes: upsert(old(self)@.nodes, node_id@, st@), ..old(self)@ }),
    {
        proof { lemma_viewed_upsert(self.node_states@, node_id@, st); }
        let ghost k = node_id@;
        let ghost s0 = self.node_states@;
        self.node_states.insert(node_id, st);
        proof {
            assert forall|i: int| 0 <= i < self.node_states@.len() implies (#[trigger] self.node_states@[i]).1.wf() by {
                if has_key(s0, k) {
                    if i != key_pos(s0, k) {
                        assert(self.node_states@[i] == s0[i]);
                    }
                } else {
                    if i < s0.len() {
                        assert(self.node_states@[i] == s0[i]);
                    }
                }
            }
        }
    }

    /// Registers `node_id` as a responsive node with nothing recorded yet,
    /// replacing what was known of it.
    pub fn register_node(&mut self, node_id: String)
        requires
            old(self).wf(),
        ensures
            final(self).wf(),
            final(self)@ == (ProofOrchestratorView { nodes: upsert(old(self)@.nodes, node_id@, fresh_node(node_id@)), ..old(self)@ }),
    {
        let st = NodeState::fresh(node_id.clone());
        self.store_node(node_id, st);
    }

    /// Replaces the state of `node_id` by `state`.
    pub fn update_node_state(&mut self, node_id: &str, state: NodeState)
        requires
            old(self).wf(),
            state.wf(),
        ensures
            final(self).wf(),
            final(self)@ == (ProofOrchestratorView { nodes: upsert(old(self)@.nodes, node_id@, state@), ..old(self)@ }),
    {
        self.store_node(owned(node_id), state);
    }

    /// Takes the state of the node at position `i` out, leaving a
    /// placeholder until [`Self::put_node`] puts it back.
    fn take_node(&mut self, i: usize) -> (st: NodeState)
        requires
            old(self).wf(),
            i < old(self).node_states@.len(),
        ensures
            st == old(self).node_states@[i as int].1,
            st.wf(),
            final(self).node_states@.len() == old(self).node_states@.len(),
            forall|j: int| 0 <= j < old(self).node_states@.len() ==> (#[trigger] final(self).node_states@[j]).0 == old(self).node_states@[j].0,
            forall|j: int| 0 <= j < old(self).node_states@.len() && j != i ==> #[trigger] final(self).node_states@[j] == old(self).node_states@[j],
            final(self).node_states@[i as int].1.wf(),
            final(self).config == old(self).config,
            final(self).crdt_verifier == old(self).crdt_verifier,
            final(self).debugger == old(self).debugger,
            final(self).session_id == old(self).session_id,
    {
        let placeholder = NodeState::fresh(String::new());
        self.node_states.replace_value_at(i, placeholder)
    }

    /// Puts `st` back at position `i`.
    fn put_node(&mut self, i: usize, st: NodeState)
        requires
            i < old(self).node_states@.len(),
            unique_keys(old(self).node_states@),
            forall|j: int| 0 <= j < old(self).node_states@.len() && j != i ==> (#[trigger] old(self).node_states@[j]).1.wf(),
            st.wf(),
            old(self).crdt_verifier.wf(),
            old(self).crdt_verifier@.config == old(self).config.crdt_config,
            debugger_follows(old(self).debugger@, old(self).config.debug_config),
        ensures
            final(self).wf(),
            final(self).node_states@ == old(self).node_states@.update(i as int, (old(self).node_states@[i as int].0, st)),
            final(self).config == old(self).config,
            final(self).crdt_verifier == old(self).crdt_verifier,
            final(self).debugger == old(self).debugger,
            final(self).session_id == old(self).session_id,
    {
        self.node_states.set_value_at(i, st);
        proof {
            assert forall|a: int, b: int| 0 <= a < self.node_states@.len() && 0 <= b < self.node_states@.len() && a != b
                implies #[trigger] self.node_states@[a].0 != #[trigger] self.node_states@[b].0 by {
                assert(old(self).node_states@[a].0 != old(self).node_states@[b].0);
            }
            assert forall|j: int| 0 <= j < self.node_states@.len() implies (#[trigger] self.node_states@[j]).1.wf() by {
                if j != i {
                    assert(self.node_states@[j] == old(self).node_states@[j]);
                }
            }
        }
    }

    /// Records the peers `node_id` is connected to; an unknown node is
    /// ignored.
    pub fn record_connections(&mut self, node_id: &str, peers: Vec<String>)
        requires
            old(self).wf(),
        ensures
            final(self).wf(),
            final(self)@ == (ProofOrchestratorView {
                nodes: if has_key(old(self)@.nodes, node_id@) {
                    old(self)@.nodes.update(key_pos(old(self)@.nodes, node_id@), (node_id@, NodeStateView {
                        connected_peers: string_views(peers@),
                        ..old(self)@.nodes[key_pos(old(self)@.nodes, node_id@)].1
                    }))
                } else {
                    old(self)@.nodes
                },
                ..old(self)@
            }),
    {
        proof { lemma_viewed_keys(self.node_states@, node_id@); }
        match self.node_states.position(node_id) {
            Some(i) => {
                let mut st = self.take_node(i);
                st.connected_peers = peers;
                st.last_updated_ms = unix_time_ms();
                self.put_node(i, st);
                proof {
                    assert(viewed(self.node_states@) =~= old(self)@.nodes.update(i as int, (node_id@, NodeStateView {
                        connected_peers: string_views(peers@),
                        ..old(self)@.nodes[i as int].1
                    })));
                }
            },
            None => {},
        }
    }

    /// Whether the counts over all nodes fit the counters of a run: the
    /// connections of all nodes, and their data verifications, each within
    /// `u64` (the condition of [`Self::verify_connectivity`] and
    /// [`Self::run_comprehensive_test`]).
    pub fn counts_fit(&self) -> (r: bool)
        ensures
            r == within_memory(self@.nodes),
    {
        let ghost nodes = self@.nodes;
        let n = self.node_states.len();
        let mut peers: u128 = 0;
        let mut checks: u128 = 0;
        let mut i: usize = 0;
        assert(nodes.take(0) =~= Seq::<(Seq<char>, NodeStateView)>::empty());
        while i < n
            invariant
                nodes == self@.nodes,
                n == self.node_states@.len(),
                nodes.len() == n,
                0 <= i <= n,
                peers == total_peers(nodes.take(i as int)),
                checks == total_summary(nodes.take(i as int)).total,
                peers <= i * 0x1_0000_0000_0000_0000,
                checks <= i * 0x1_0000_0000_0000_0000,
            decreases n - i,
        {
            let st = self.node_states.value_at(i);
            proof {
                lemma_node_view(self.node_states@, i as int);
                assert(nodes.take(i + 1).drop_last() =~= nodes.take(i as int));
                assert(nodes.take(i + 1).last() == nodes[i as int]);
                lemma_summary_bounds(values_of(st@.verifications));
                assert(values_of(st@.verifications).len() == st.data_verifications@.len());
            }
            peers = peers + st.connected_peers.len() as u128;
            checks = checks + st.data_verifications.len() as u128;
            i = i + 1;
        }
        assert(nodes.take(n as int) =~= nodes);
        peers <= 0xffff_ffff_ffff_ffff && checks <= 0xffff_ffff_ffff_ffff
    }

    /// Registers every node of `peers`, each connected to all the others:
    /// the full mesh that a run assumes when each node can see every other.
    pub fn register_peer_mesh(&mut self, peers: &Vec<String>)
        requires
            old(self).wf(),
        ensures
            final(self).wf(),
            final(self)@ == (ProofOrchestratorView { nodes: final(self)@.nodes, ..old(self)@ }),
            final(self)@.nodes == mesh_registered(old(self)@.nodes, string_views(peers@), peers@.len() as nat),
            forall|i: int| 0 <= i < peers@.len() ==>
                lookup(final(self)@.nodes, #[trigger] peers@[i]@) == Some(mesh_node(string_views(peers@), peers@[i]@)),
            forall|k: Seq<char>| !string_views(peers@).contains(k) ==>
                lookup(final(self)@.nodes, k) == lookup(old(self)@.nodes, k),
    {
        let ghost views = string_views(peers@);
        let ghost start = self@;
        let n = peers.len();
        let mut i: usize = 0;
        while i < n
            invariant
                n == peers@.len(),
                views == string_views(peers@),
                0 <= i <= n,
                self.wf(),
                self@ == (ProofOrchestratorView { nodes: self@.nodes, ..start }),
                self@.nodes == mesh_registered(start.nodes, views, i as nat),
                forall|j: int| 0 <= j < i ==> lookup(self@.nodes, #[trigger] views[j]) == Some(mesh_node(views, views[j])),
                forall|k: Seq<char>| !views.take(i as int).contains(k) ==> lookup(self@.nodes, k) == lookup(start.nodes, k),
            decreases n - i,
        {
            let p = &peers[i];
            let others = others_than(peers, p.as_str());
            let ghost before = self@.nodes;
            proof { lemma_viewed_keys(self.node_states@, p@); }
            self.register_node(p.clone());
            let ghost mid = self@.nodes;
            proof {
                crate::keyed::lemma_upsert(before, p@, fresh_node(p@));
                lemma_viewed_keys(self.node_states@, p@);
            }
            self.record_connections(p.as_str(), others);
            proof {
                assert(mid[key_pos(mid, p@)].0 == p@);
                lemma_lookup_at(mid, key_pos(mid, p@));
                assert(mid[key_pos(mid, p@)].1 == fresh_node(p@));
                assert(self@.nodes == upsert(mid, p@, mesh_node(views, p@)));
                lemma_upsert_twice(before, p@, fresh_node(p@), mesh_node(views, p@));
                assert(views[i as int] == p@);
                assert(self@.nodes == mesh_registered(start.nodes, views, (i + 1) as nat));
                crate::keyed::lemma_upsert(before, p@, mesh_node(views, p@));
                assert forall|j: int| 0 <= j < i + 1 implies lookup(self@.nodes, #[trigger] views[j]) == Some(mesh_node(views, views[j])) by {
                    if views[j] != p@ {
                        assert(lookup(before, views[j]) == Some(mesh_node(views, views[j])));
                    }
                }
                assert forall|k: Seq<char>| !views.take(i + 1).contains(k) implies lookup(self@.nodes, k) == lookup(start.nodes, k) by {
                    assert(views.take(i + 1)[i as int] == p@);
                    assert(k != p@);
                    if views.take(i as int).contains(k) {
                        let w = choose|w: int| 0 <= w < i && views.take(i as int)[w] == k;
                        assert(views.take(i + 1)[w] == k);
                    }
                }
            }
            i = i + 1;
        }
        proof {
            assert(views.take(n as int) =~= views);
            assert forall|j: int| 0 <= j < peers@.len() implies
                lookup(self@.nodes, #[trigger] peers@[j]@) == Some(mesh_node(views, peers@[j]@)) by {
                assert(views[j] == peers@[j]@);
            }
        }
    }

    /// Records the CRDT state hash of `node_id`, with the CRDT verifier and,
    /// for a registered node, in its state.
    pub fn record_state_hash(&mut self, node_id: &str, hash: [u8; 32])
        requires
            old(self).wf(),
        ensures
            final(self).wf(),
            final(self)@ == (ProofOrchestratorView {
                nodes: if has_key(old(self)@.nodes, node_id@) {
                    old(self)@.nodes.update(key_pos(old(self)@.nodes, node_id@), (node_id@, NodeStateView {
                        state_hash: Some(hash),
                        ..old(self)@.nodes[key_pos(old(self)@.nodes, node_id@)].1
                    }))
                } else {
                    old(self)@.nodes
                },
                crdt: CrdtVerifierView { current: upsert(old(self)@.crdt.current, node_id@, hash), ..old(self)@.crdt },
                ..old(self)@
            }),
    {
        self.crdt_verifier.update_state(owned(node_id), hash);
        proof { lemma_viewed_keys(self.node_states@, node_id@); }
        match self.node_states.position(node_id) {
            Some(i) => {
                let mut st = self.take_node(i);
                st.state_hash = Some(hash);
                st.last_updated_ms = unix_time_ms();
                self.put_node(i, st);
                proof {
                    assert(viewed(self.node_states@) =~= old(self)@.nodes.update(i as int, (node_id@, NodeStateView {
                        state_hash: Some(hash),
                        ..old(self)@.nodes[i as int].1
                    })));
                }
            },
            None => {},
        }
    }

    /// Records the address of `peer_id` as `node_id` sees it; an unknown
    /// node is ignored.
    pub fn record_peer_address(&mut self, node_id: &str, peer_id: &str, addr: SocketAddress)
        requires
            old(self).wf(),
        ensures
            final(self).wf(),
            final(self)@ == (ProofOrchestratorView {
                nodes: if has_key(old(self)@.nodes, node_id@) {
                    old(self)@.nodes.update(key_pos(old(self)@.nodes, node_id@), (node_id@, NodeStateView {
                        peer_addresses: upsert(old(self)@.nodes[key_pos(old(self)@.nodes, node_id@)].1.peer_addresses, peer_id@, addr@),
                        ..old(self)@.nodes[key_pos(old(self)@.nodes, node_id@)].1
                    }))
                } else {
                    old(self)@.nodes
                },
                ..old(self)@
            }),
    {
        proof { lemma_viewed_keys(self.node_states@, node_id@); }
        match self.node_states.position(node_id) {
            Some(i) => {
                let mut st = self.take_node(i);
                let ghost before = st@;
                proof { lemma_viewed_upsert(st.peer_addresses@, peer_id@, addr); }
                st.peer_addresses.insert(owned(peer_id), addr);
                st.last_updated_ms = unix_time_ms();
                assert(st@ == NodeStateView { peer_addresses: upsert(before.peer_addresses, peer_id@, addr@), ..before });
                self.put_node(i, st);
                proof {
                    assert(viewed(self.node_states@) =~= old(self)@.nodes.update(i as int, (node_id@, NodeStateView {
                        peer_addresses: upsert(old(self)@.nodes[i as int].1.peer_addresses, peer_id@, addr@),
                        ..old(self)@.nodes[i as int].1
                    })));
                }
            },
            None => {},
        }
    }

    /// Records the data verification `result` of the connection of
    /// `node_id` with `peer_id`, under the key `peer:v4:out` or the like,
    /// replacing an earlier one of the same connection; an unknown node is
    /// ignored.
    pub fn record_data_verification(&mut self, node_id: &str, peer_id: &str, result: DataVerificationResult)
        requires
            old(self).wf(),
        ensures
            final(self).wf(),
            final(self)@ == with_verification(old(self)@, node_id@, peer_id@, result@),
    {
        proof { lemma_viewed_keys(self.node_states@, node_id@); }
        match self.node_states.position(node_id) {
            Some(i) => {
                let version = match result.ip_version {
                    IpVersion::V4 => "v4",
                    IpVersion::V6 => "v6",
                };
                let direction = match result.direction {
                    ConnectionDirection::Outbound => "out",
                    ConnectionDirection::Inbound => "in",
                };
                let head = concat3(peer_id, ":", version);
                let key = concat3(head.as_str(), ":", direction);
                assert(key@ == verification_key(peer_id@, result.ip_version, result.direction));
                let mut st = self.take_node(i);
                let ghost before = st@;
                let ghost rv = result@;
                proof { lemma_viewed_upsert(st.data_verifications@, key@, result); }
                st.data_verifications.insert(key, result);
                st.last_updated_ms = unix_time_ms();
                assert(st@ == NodeStateView { verifications: upsert(before.verifications, verification_key(peer_id@, rv.ip_version, rv.direction), rv), ..before });
                self.put_node(i, st);
                proof {
                    assert(viewed(self.node_states@) =~= old(self)@.nodes.update(i as int, (node_id@, NodeStateView {
                        verifications: upsert(old(self)@.nodes[i as int].1.verifications,
                            verification_key(peer_id@, rv.ip_version, rv.direction), rv),
                        ..old(self)@.nodes[i as int].1
                    })));
                }
            },
            None => {},
        }
    }

    /// Counts of the data verifications of `node_id`; all zero for an
    /// unknown node.
    pub fn get_verification_summary(&self, node_id: &str) -> (s: VerificationSummary)
        requires
            self.wf(),
        ensures
            s@ == if has_key(self@.nodes, node_id@) {
                node_summary(self@.nodes[key_pos(self@.nodes, node_id@)].1)
            } else {
                zero_summary()
            },
    {
        proof { lemma_viewed_keys(self.node_states@, node_id@); }
        match self.node_states.position(node_id) {
            Some(i) => {
                let st = self.node_states.value_at(i);
                proof { lemma_node_view(self.node_states@, i as int); }
                st.summary()
            },
            None => VerificationSummary::default(),
        }
    }

    /// Adds log entries for investigation (see [`AutomatedDebugger::add_logs`]).
    pub fn add_logs(&mut self, logs: Vec<LogEntry>)
        requires
            old(self).wf(),
        ensures
            final(self).wf(),
            final(self)@ == (ProofOrchestratorView {
                debugger: AutomatedDebuggerView {
                    logs: old(self)@.debugger.logs + crate::debug_automation::log_views(logs@).take(
                        if old(self)@.debugger.logs.len() >= old(self)@.debugger.max_log_lines { 0 }
                        else if logs@.len() <= old(self)@.debugger.max_log_lines - old(self)@.debugger.logs.len() { logs@.len() as int }
                        else { old(self)@.debugger.max_log_lines - old(self)@.debugger.logs.len() }),
                    ..old(self)@.debugger
                },
                ..old(self)@
            }),
    {
        self.debugger.add_logs(logs);
    }
}

impl ProofOrchestrator {
    /// Checks that enough nodes take part (see the module documentation):
    /// fails with an `insufficient_nodes` anomaly below the minimum, and
    /// otherwise passes with the figures of [`connectivity_details`]. The
    /// nodes are listed in registration order.
    pub fn verify_connectivity(&self) -> (r: StepResult)
        requires
            self.wf(),
            within_memory(self@.nodes),
        ensures
            r.name@ == "connectivity"@,
            self@.nodes.len() < self@.min_nodes ==> !r.passed
                && r.details@ == "Insufficient nodes: "@ + decimal(self@.nodes.len()) + " < "@ + decimal(self@.min_nodes as nat)
                && r.anomalies@.len() == 1
                && r.anomalies@[0]@.anomaly_type == "insufficient_nodes"@
                && r.anomalies@[0]@.description == "Need at least "@ + decimal(self@.min_nodes as nat) + " nodes"@
                && r.anomalies@[0]@.severity == 4
                && r.anomalies@[0]@.nodes_involved.len() == 0,
            self@.nodes.len() >= self@.min_nodes ==> r.passed
                && r.details@ == connectivity_details(self@.nodes)
                && r.anomalies@.len() == 0,
    {
        let start = instant_now();
        let n = self.node_states.len();
        let min = self.config.min_nodes;
        if n < min {
            let counts = concat3(usize_to_text(n).as_str(), " < ", usize_to_text(min).as_str());
            let details = concat2("Insufficient nodes: ", counts.as_str());
            let description = concat3("Need at least ", usize_to_text(min).as_str(), " nodes");
            let anomaly = TestAnomaly::new(owned("insufficient_nodes"), description, 4, unix_time_ms());
            proof { assert(string_views(anomaly.nodes_involved@) =~= Seq::<Seq<char>>::empty()); }
            let anomalies = vec![anomaly];
            let elapsed = millis_between(&instant_now(), &start);
            return StepResult::fail("connectivity", elapsed, details, anomalies);
        }
        let ghost nodes = self@.nodes;
        let mut total_peers_seen: u128 = 0;
        let mut total_checks: u128 = 0;
        let mut total_ok: u128 = 0;
        let mut lines: Vec<String> = Vec::new();
        let mut i: usize = 0;
        while i < n
            invariant
                n == self.node_states@.len(),
                nodes == self@.nodes,
                nodes == viewed(self.node_states@),
                0 <= i <= n,
                total_peers_seen == total_peers(nodes.take(i as int)),
                total_checks == total_summary(nodes.take(i as int)).total,
                total_ok == total_summary(nodes.take(i as int)).verified,
                total_peers_seen <= (i as int) * 0x1_0000_0000_0000_0000,
                total_checks <= (i as int) * 0x1_0000_0000_0000_0000,
                total_ok <= total_checks,
                string_views(lines@) == nodes.take(i as int).map_values(|e: (Seq<char>, NodeStateView)| node_line(e)),
            decreases n - i,
        {
            let key = self.node_states.key_at(i);
            let st = self.node_states.value_at(i);
            proof { lemma_node_view(self.node_states@, i as int); }
            let ghost e = nodes[i as int];
            assert(e == (key@, st@));
            assert(nodes.take(i + 1).drop_last() =~= nodes.take(i as int));
            assert(nodes.take(i + 1).last() == e);
            let peer_count = st.connected_peers.len();
            let summary = st.summary();
            proof { lemma_summary_bounds(values_of(st@.verifications)); }
            total_peers_seen = total_peers_seen + peer_count as u128;
            total_checks = total_checks + summary.total_tests as u128;
            total_ok = total_ok + summary.verified_count as u128;
            let head = concat3(key.as_str(), ":", usize_to_text(peer_count).as_str());
            let mid = concat3(head.as_str(), "/", usize_to_text(summary.verified_count).as_str());
            let line = concat2(mid.as_str(), "v");
            let ghost before = string_views(lines@);
            lines.push(line);
            proof {
                assert(string_views(lines@) =~= before.push(node_line(e)));
                assert(nodes.take(i + 1).map_values(|e: (Seq<char>, NodeStateView)| node_line(e))
                    =~= nodes.take(i as int).map_values(|e: (Seq<char>, NodeStateView)| node_line(e)).push(node_line(e)));
            }
            i = i + 1;
        }
        assert(nodes.take(n as int) =~= nodes);
        let nn = n as u128;
        let full: u128 = if n > 0 {
            assert(nn * (nn - 1) <= nn * nn) by (nonlinear_arith) requires nn >= 1;
            assert(nn * nn < 0x1_0000_0000_0000_0000 * 0x1_0000_0000_0000_0000) by (nonlinear_arith)
                requires nn < 0x1_0000_0000_0000_0000;
            nn * (nn - 1)
        } else {
            0
        };
        assert(full == n * (n - 1)) by (nonlinear_arith) requires full == (if n > 0 { nn * (nn - 1) } else { 0 }), nn == n;
        let mesh: u128 = if full > 0 { percent_of(total_peers_seen, full) } else { 100 };
        let rate: u128 = if total_checks > 0 { percent_of(total_ok, total_checks) } else { 100 };
        let node_list = join(lines.as_slice(), ", ");
        let mut details = concat2(usize_to_text(n).as_str(), " nodes, ");
        details.append(u128_to_text(total_peers_seen).as_str());
        details.append(" connections (");
        details.append(u128_to_text(mesh).as_str());
        details.append("% mesh), ");
        details.append(u128_to_text(total_ok).as_str());
        details.append(" verified (");
        details.append(u128_to_text(rate).as_str());
        details.append("% rate), [");
        details.append(node_list.as_str());
        details.append("]");
        let elapsed = millis_between(&instant_now(), &start);
        StepResult::pass("connectivity", elapsed, details)
    }
}

/// Details of the connectivity step of IP version `v`.
pub open spec fn protocol_details(nodes: Seq<(Seq<char>, NodeStateView)>, v: IpVersion) -> Seq<char> {
    decimal(version_counts(nodes, v).0) + " verified out of "@ + decimal(version_counts(nodes, v).1) + " "@
        + v.label_spec() + " connections"@
}

/// Details of the inbound connectivity step.
pub open spec fn inbound_details(nodes: Seq<(Seq<char>, NodeStateView)>) -> Seq<char> {
    let i = direction_counts(nodes, ConnectionDirection::Inbound);
    let o = direction_counts(nodes, ConnectionDirection::Outbound);
    "inbound: "@ + decimal(i.0) + "/"@ + decimal(i.1) + ", outbound: "@ + decimal(o.0) + "/"@ + decimal(o.1)
        + ", bidirectional: "@ + (if i.0 > 0 && o.0 > 0 { "yes"@ } else { "no"@ })
}

impl NodeState {
    /// Successful and all verifications of the node with IP version `v`.
    fn tally_version(&self, v: IpVersion) -> (r: (usize, usize))
        ensures
            r.0 == version_tally(values_of(self@.verifications), v).0,
            r.1 == version_tally(values_of(self@.verifications), v).1,
    {
        let ghost vs = values_of(self@.verifications);
        let n = self.data_verifications.len();
        let mut ok: usize = 0;
        let mut all: usize = 0;
        let mut i: usize = 0;
        while i < n
            invariant
                n == self.data_verifications@.len(),
                vs == values_of(self@.verifications),
                vs.len() == n,
                0 <= i <= n,
                ok == version_tally(vs.take(i as int), v).0,
                all == version_tally(vs.take(i as int), v).1,
                ok <= all <= i,
            decreases n - i,
        {
            let d = self.data_verifications.value_at(i);
            assert(vs[i as int] == d@);
            assert(vs.take(i + 1).drop_last() =~= vs.take(i as int));
            assert(vs.take(i + 1).last() == d@);
            if d.ip_version == v {
                all = all + 1;
                if d.is_success() {
                    ok = ok + 1;
                }
            }
            i = i + 1;
        }
        assert(vs.take(n as int) =~= vs);
        (ok, all)
    }

    /// Successful and all verifications of the node in direction `dir`.
    fn tally_direction(&self, dir: ConnectionDirection) -> (r: (usize, usize))
        ensures
            r.0 == direction_tally(values_of(self@.verifications), dir).0,
            r.1 == direction_tally(values_of(self@.verifications), dir).1,
    {
        let ghost vs = values_of(self@.verifications);
        let n = self.data_verifications.len();
        let mut ok: usize = 0;
        let mut all: usize = 0;
        let mut i: usize = 0;
        while i < n
            invariant
                n == self.data_verifications@.len(),
                vs == values_of(self@.verifications),
                vs.len() == n,
                0 <= i <= n,
                ok == direction_tally(vs.take(i as int), dir).0,
                all == direction_tally(vs.take(i as int), dir).1,
                ok <= all <= i,
            decreases n - i,
        {
            let d = self.data_verifications.value_at(i);
            assert(vs[i as int] == d@);
            assert(vs.take(i + 1).drop_last() =~= vs.take(i as int));
            assert(vs.take(i + 1).last() == d@);
            if d.direction == dir {
                all = all + 1;
                if d.is_success() {
                    ok = ok + 1;
                }
            }
            i = i + 1;
        }
        assert(vs.take(n as int) =~= vs);
        (ok, all)
    }
}

impl ProofOrchestrator {
    /// Successful and all verifications of all nodes with IP version `v`.
    fn count_version(&self, v: IpVersion) -> (r: (u128, u128))
        requires
            self.wf(),
        ensures
            r.0 == version_counts(self@.nodes, v).0,
            r.1 == version_counts(self@.nodes, v).1,
    {
        let ghost nodes = self@.nodes;
        let n = self.node_states.len();
        let mut ok: u128 = 0;
        let mut all: u128 = 0;
        let mut i: usize = 0;
        while i < n
            invariant
                n == self.node_states@.len(),
                nodes == viewed(self.node_states@),
                0 <= i <= n,
                ok == version_counts(nodes.take(i as int), v).0,
                all == version_counts(nodes.take(i as int), v).1,
                ok <= (i as int) * 0x1_0000_0000_0000_0000,
                all <= (i as int) * 0x1_0000_0000_0000_0000,
            decreases n - i,
        {
            let st = self.node_states.value_at(i);
            proof { lemma_node_view(self.node_states@, i as int); }
            assert(nodes.take(i + 1).drop_last() =~= nodes.take(i as int));
            assert(nodes.take(i + 1).last() == nodes[i as int]);
            let (a, b) = st.tally_version(v);
            ok = ok + a as u128;
            all = all + b as u128;
            i = i + 1;
        }
        assert(nodes.take(n as int) =~= nodes);
        (ok, all)
    }

    /// Successful and all verifications of all nodes in direction `dir`.
    fn count_direction(&self, dir: ConnectionDirection) -> (r: (u128, u128))
        requires
            self.wf(),
        ensures
            r.0 == direction_counts(self@.nodes, dir).0,
            r.1 == direction_counts(self@.nodes, dir).1,
    {
        let ghost nodes = self@.nodes;
        let n = self.node_states.len();
        let mut ok: u128 = 0;
        let mut all: u128 = 0;
        let mut i: usize = 0;
        while i < n
            invariant
                n == self.node_states@.len(),
                nodes == viewed(self.node_states@),
                0 <= i <= n,
                ok == direction_counts(nodes.take(i as int), dir).0,
                all == direction_counts(nodes.take(i as int), dir).1,
                ok <= (i as int) * 0x1_0000_0000_0000_0000,
                all <= (i as int) * 0x1_0000_0000_0000_0000,
            decreases n - i,
        {
            let st = self.node_states.value_at(i);
            proof { lemma_node_view(self.node_states@, i as int); }
            assert(nodes.take(i + 1).drop_last() =~= nodes.take(i as int));
            assert(nodes.take(i + 1).last() == nodes[i as int]);
            let (a, b) = st.tally_direction(dir);
            ok = ok + a as u128;
            all = all + b as u128;
            i = i + 1;
        }
        assert(nodes.take(n as int) =~= nodes);
        (ok, all)
    }

    /// The connectivity step of one IP version: always passes (the relay
    /// is the fallback) and reports how many of its verifications succeeded.
    fn test_protocol_connectivity(&self, version: IpVersion) -> (r: StepResult)
        requires
            self.wf(),
        ensures
            r.name@ == "connectivity_"@ + version.label_spec(),
            r.passed,
            r.details@ == protocol_details(self@.nodes, version),
            r.anomalies@.len() == 0,
    {
        let start = instant_now();
        let (ok, all) = self.count_version(version);
        let name = concat2("connectivity_", version.label());
        let mut details = concat2(u128_to_text(ok).as_str(), " verified out of ");
        details.append(u128_to_text(all).as_str());
        details.append(" ");
        details.append(version.label());
        details.append(" connections");
        let elapsed = millis_between(&instant_now(), &start);
        StepResult::pass(name.as_str(), elapsed, details)
    }

    /// The connectivity steps of IPv4 and of IPv6, in that order.
    pub fn verify_connectivity_by_protocol(&self) -> (r: Vec<StepResult>)
        requires
            self.wf(),
        ensures
            r@.len() == 2,
            r@[0].name@ == "connectivity_IPv4"@ && r@[0].passed && r@[0].details@ == protocol_details(self@.nodes, IpVersion::V4),
            r@[1].name@ == "connectivity_IPv6"@ && r@[1].passed && r@[1].details@ == protocol_details(self@.nodes, IpVersion::V6),
    {
        let mut results: Vec<StepResult> = Vec::new();
        results.push(self.test_protocol_connectivity(IpVersion::V4));
        results.push(self.test_protocol_connectivity(IpVersion::V6));
        proof {
            reveal_strlit("connectivity_");
            reveal_strlit("IPv4");
            reveal_strlit("IPv6");
            reveal_strlit("connectivity_IPv4");
            reveal_strlit("connectivity_IPv6");
            assert("connectivity_"@ + "IPv4"@ =~= "connectivity_IPv4"@);
            assert("connectivity_"@ + "IPv6"@ =~= "connectivity_IPv6"@);
        }
        results
    }

    /// The inbound connectivity step: always passes (the relay is the
    /// fallback) and reports verified connections in each direction.
    pub fn verify_inbound_connectivity(&self) -> (r: StepResult)
        requires
            self.wf(),
        ensures
            r.name@ == "inbound_connectivity"@,
            r.passed,
            r.details@ == inbound_details(self@.nodes),
            r.anomalies@.len() == 0,
    {
        let start = instant_now();
        let (in_ok, in_all) = self.count_direction(ConnectionDirection::Inbound);
        let (out_ok, out_all) = self.count_direction(ConnectionDirection::Outbound);
        let bidirectional = in_ok > 0 && out_ok > 0;
        let mut details = concat2("inbound: ", u128_to_text(in_ok).as_str());
        details.append("/");
        details.append(u128_to_text(in_all).as_str());
        details.append(", outbound: ");
        details.append(u128_to_text(out_ok).as_str());
        details.append("/");
        details.append(u128_to_text(out_all).as_str());
        details.append(", bidirectional: ");
        details.append(if bidirectional { "yes" } else { "no" });
        let elapsed = millis_between(&instant_now(), &start);
        StepResult::pass("inbound_connectivity", elapsed, details)
    }
}

/// The counts of a prefix of the nodes never exceed those of all nodes,
/// and each count is bounded as in a single summary.
proof fn lemma_total_summary(nodes: Seq<(Seq<char>, NodeStateView)>, i: int)
    requires
        0 <= i <= nodes.len(),
    ensures
        total_summary(nodes.take(i)).total <= total_summary(nodes).total,
        total_summary(nodes).verified + total_summary(nodes).failed == total_summary(nodes).total,
        total_summary(nodes).ipv4 <= total_summary(nodes).verified,
        total_summary(nodes).ipv6 <= total_summary(nodes).verified,
        total_summary(nodes).outbound <= total_summary(nodes).verified,
        total_summary(nodes).inbound <= total_summary(nodes).verified,
    decreases nodes.len(),
{
    if nodes.len() > 0 {
        let init = nodes.drop_last();
        lemma_summary_bounds(values_of(nodes.last().1.verifications));
        if i < nodes.len() {
            lemma_total_summary(init, i);
            assert(init.take(i) =~= nodes.take(i));
        } else {
            lemma_total_summary(init, 0);
            assert(nodes.take(i) =~= nodes);
        }
    }
}

impl ProofOrchestrator {
    /// Counts of the data verifications of all nodes together.
    pub fn get_aggregated_verification_summary(&self) -> (s: VerificationSummary)
        requires
            self.wf(),
            total_summary(self@.nodes).total <= usize::MAX,
        ensures
            s@ == total_summary(self@.nodes),
    {
        let ghost nodes = self@.nodes;
        let n = self.node_states.len();
        let mut agg = VerificationSummary::default();
        let mut i: usize = 0;
        proof { lemma_total_summary(nodes, 0); }
        while i < n
            invariant
                n == self.node_states@.len(),
                nodes == viewed(self.node_states@),
                0 <= i <= n,
                total_summary(nodes).total <= usize::MAX,
                agg@ == total_summary(nodes.take(i as int)),
            decreases n - i,
        {
            let st = self.node_states.value_at(i);
            proof {
                lemma_node_view(self.node_states@, i as int);
                lemma_total_summary(nodes, i + 1);
                lemma_total_summary(nodes.take(i + 1), i + 1);
            }
            assert(nodes.take(i + 1).drop_last() =~= nodes.take(i as int));
            assert(nodes.take(i + 1).last() == nodes[i as int]);
            let m = st.summary();
            agg.total_tests = agg.total_tests + m.total_tests;
            agg.verified_count = agg.verified_count + m.verified_count;
            agg.failed_count = agg.failed_count + m.failed_count;
            agg.ipv4_verified = agg.ipv4_verified + m.ipv4_verified;
            agg.ipv6_verified = agg.ipv6_verified + m.ipv6_verified;
            agg.outbound_verified = agg.outbound_verified + m.outbound_verified;
            agg.inbound_verified = agg.inbound_verified + m.inbound_verified;
            i = i + 1;
        }
        assert(nodes.take(n as int) =~= nodes);
        agg
    }
}

/// `OK` for a pass, `FAIL` otherwise.
pub open spec fn ok_fail(b: bool) -> Seq<char> {
    if b { "OK"@ } else { "FAIL"@ }
}

/// Kind and description of the anomaly of each failed gossip protocol, in
/// the order HyParView, SWIM, Plumtree.
pub open spec fn gossip_failures(g: GossipSummary) -> Seq<(Seq<char>, Seq<char>)> {
    (if g.hyparview_valid { Seq::empty() } else {
        seq![("hyparview_failure"@, "HyParView verification failed: "@ + g.hyparview_details@)] })
    + (if g.swim_valid { Seq::empty() } else {
        seq![("swim_failure"@, "SWIM verification failed: "@ + g.swim_details@)] })
    + (if g.plumtree_valid { Seq::empty() } else {
        seq![("plumtree_failure"@, "Plumtree verification failed: "@ + g.plumtree_details@)] })
}

/// The anomalies `a` are, in order, of the kinds and with the descriptions
/// `e`, each of severity `sev` and naming no node.
pub open spec fn anomalies_are(a: Seq<TestAnomalyView>, e: Seq<(Seq<char>, Seq<char>)>, sev: u8) -> bool {
    &&& a.len() == e.len()
    &&& forall|i: int| 0 <= i < a.len() ==> (#[trigger] a[i]).anomaly_type == e[i].0 && a[i].description == e[i].1
        && a[i].severity == sev && a[i].nodes_involved.len() == 0
}

/// Kind and description of the anomaly of a divergent node.
pub open spec fn divergence(node: Seq<char>) -> (Seq<char>, Seq<char>) {
    ("state_divergence"@, "Node "@ + node + " has divergent state"@)
}

/// Names of the failed steps among connectivity, gossip and CRDT.
pub open spec fn failed_steps(conn_ok: bool, gossip_ok: bool, crdt_ok: bool) -> Seq<Seq<char>> {
    (if conn_ok { Seq::empty() } else { seq!["connectivity"@] })
    + (if gossip_ok { Seq::empty() } else { seq!["gossip_protocols"@] })
    + (if crdt_ok { Seq::empty() } else { seq!["crdt_convergence"@] })
}

/// Appends an anomaly of kind `kind` and description `description`,
/// detected now, naming no node.
fn push_anomaly(v: &mut Vec<TestAnomaly>, kind: &str, description: String, severity: u8)
    ensures
        final(v)@.len() == old(v)@.len() + 1,
        forall|i: int| 0 <= i < old(v)@.len() ==> #[trigger] final(v)@[i] == old(v)@[i],
        final(v)@[old(v)@.len() as int]@.anomaly_type == kind@,
        final(v)@[old(v)@.len() as int]@.description == description@,
        final(v)@[old(v)@.len() as int]@.severity == severity,
        final(v)@[old(v)@.len() as int]@.nodes_involved.len() == 0,
{
    let a = TestAnomaly::new(owned(kind), description, severity, unix_time_ms());
    proof { assert(string_views(a.nodes_involved@) =~= Seq::<Seq<char>>::empty()); }
    v.push(a);
}

impl ProofOrchestrator {
    /// The gossip step, judged on the verification of the three protocols
    /// `gossip`: passes when all three are valid, with an anomaly of
    /// severity 4 for each that is not.
    pub fn verify_gossip(&self, gossip: &GossipSummary) -> (r: StepResult)
        ensures
            r.name@ == "gossip_protocols"@,
            r.passed == gossip.all_valid(),
            r.details@ == "HyParView:"@ + ok_fail(gossip.hyparview_valid) + " SWIM:"@ + ok_fail(gossip.swim_valid)
                + " Plumtree:"@ + ok_fail(gossip.plumtree_valid),
            gossip.all_valid() ==> r.anomalies@.len() == 0,
            !gossip.all_valid() ==> anomalies_are(test_anomaly_views(r.anomalies@), gossip_failures(*gossip), 4),
    {
        let start = instant_now();
        let mut anomalies: Vec<TestAnomaly> = Vec::new();
        let ghost e0: Seq<(Seq<char>, Seq<char>)> = if gossip.hyparview_valid { Seq::empty() } else {
            seq![("hyparview_failure"@, "HyParView verification failed: "@ + gossip.hyparview_details@)] };
        let ghost e1: Seq<(Seq<char>, Seq<char>)> = if gossip.swim_valid { Seq::empty() } else {
            seq![("swim_failure"@, "SWIM verification failed: "@ + gossip.swim_details@)] };
        if !gossip.hyparview_valid {
            push_anomaly(&mut anomalies, "hyparview_failure",
                concat2("HyParView verification failed: ", gossip.hyparview_details.as_str()), 4);
        }
        assert(anomalies_are(test_anomaly_views(anomalies@), e0, 4));
        if !gossip.swim_valid {
            push_anomaly(&mut anomalies, "swim_failure",
                concat2("SWIM verification failed: ", gossip.swim_details.as_str()), 4);
        }
        assert(anomalies_are(test_anomaly_views(anomalies@), e0 + e1, 4));
        if !gossip.plumtree_valid {
            push_anomaly(&mut anomalies, "plumtree_failure",
                concat2("Plumtree verification failed: ", gossip.plumtree_details.as_str()), 4);
        }
        assert(anomalies_are(test_anomaly_views(anomalies@), gossip_failures(*gossip), 4));
        let mut details = concat2("HyParView:", if gossip.hyparview_valid { "OK" } else { "FAIL" });
        details.append(" SWIM:");
        details.append(if gossip.swim_valid { "OK" } else { "FAIL" });
        details.append(" Plumtree:");
        details.append(if gossip.plumtree_valid { "OK" } else { "FAIL" });
        let elapsed = millis_between(&instant_now(), &start);
        if gossip.hyparview_valid && gossip.swim_valid && gossip.plumtree_valid {
            StepResult::pass("gossip_protocols", elapsed, details)
        } else {
            StepResult::fail("gossip_protocols", elapsed, details, anomalies)
        }
    }

    /// The CRDT step: passes when all nodes report the same state, with an
    /// anomaly of severity 5 for each node off the most common state
    /// otherwise; the first convergence seen is noted.
    pub fn verify_crdt(&mut self) -> (r: StepResult)
        requires
            old(self).wf(),
        ensures
            final(self).wf(),
            final(self)@ == (ProofOrchestratorView { crdt: final(self)@.crdt, ..old(self)@ }),
            convergence_checked(old(self)@.crdt, final(self)@.crdt),
            r.name@ == "crdt_convergence"@,
            r.passed == all_same_hash(old(self)@.crdt.current),
            r.details@ == "convergence:"@ + ok_fail(all_same_hash(old(self)@.crdt.current))
                + " nodes:"@ + decimal(old(self)@.crdt.current.len()) + " ops:"@ + decimal(old(self)@.crdt.operations.len()),
            r.passed ==> r.anomalies@.len() == 0,
            !r.passed ==> exists|m: [u8; 32]| #[trigger] crate::crdt_verification::is_majority_hash(old(self)@.crdt.current, m)
                && anomalies_are(test_anomaly_views(r.anomalies@),
                    crate::crdt_verification::nodes_lacking(old(self)@.crdt.current, m).map_values(|n: Seq<char>| divergence(n)), 5),
    {
        let start = instant_now();
        let converged = self.crdt_verifier.check_convergence();
        let summary = self.crdt_verifier.get_summary();
        let mut anomalies: Vec<TestAnomaly> = Vec::new();
        let ghost div = summary.divergent_nodes@.map_values(|x: String| x@);
        if !converged {
            let mut i: usize = 0;
            while i < summary.divergent_nodes.len()
                invariant
                    0 <= i <= summary.divergent_nodes@.len(),
                    div == summary.divergent_nodes@.map_values(|x: String| x@),
                    anomalies_are(test_anomaly_views(anomalies@), div.take(i as int).map_values(|n: Seq<char>| divergence(n)), 5),
                decreases summary.divergent_nodes@.len() - i,
            {
                let ghost before = anomalies@;
                let d = concat3("Node ", summary.divergent_nodes[i].as_str(), " has divergent state");
                push_anomaly(&mut anomalies, "state_divergence", d, 5);
                assert(div.take(i + 1).map_values(|n: Seq<char>| divergence(n))
                    =~= div.take(i as int).map_values(|n: Seq<char>| divergence(n)).push(divergence(div[i as int])));
                assert(anomalies_are(test_anomaly_views(anomalies@), div.take(i + 1).map_values(|n: Seq<char>| divergence(n)), 5)) by {
                    assert forall|k: int| 0 <= k < anomalies@.len() implies
                        (#[trigger] test_anomaly_views(anomalies@)[k]).anomaly_type == div.take(i + 1).map_values(|n: Seq<char>| divergence(n))[k].0
                        && test_anomaly_views(anomalies@)[k].description == div.take(i + 1).map_values(|n: Seq<char>| divergence(n))[k].1
                        && test_anomaly_views(anomalies@)[k].severity == 5
                        && test_anomaly_views(anomalies@)[k].nodes_involved.len() == 0 by {
                        if k < i {
                            assert(anomalies@[k] == before[k]);
                            assert(test_anomaly_views(before)[k] == before[k]@);
                        }
                    }
                }
                i = i + 1;
            }
            assert(div.take(div.len() as int) =~= div);
        }
        let mut details = concat2("convergence:", if converged { "OK" } else { "FAIL" });
        details.append(" nodes:");
        details.append(usize_to_text(summary.nodes_participating).as_str());
        details.append(" ops:");
        details.append(usize_to_text(summary.operations_recorded).as_str());
        let elapsed = millis_between(&instant_now(), &start);
        if converged {
            StepResult::pass("crdt_convergence", elapsed, details)
        } else {
            StepResult::fail("crdt_convergence", elapsed, details, anomalies)
        }
    }
}

impl ProofOrchestrator {
    /// The connectivity proof: every registered node expected and observed,
    /// in registration order, with the distinct peers each sees; attested
    /// by the observer over an all-zero hash.
    pub fn generate_connectivity_proof(&self) -> (p: NetworkConnectivityProof)
        requires
            self.wf(),
        ensures
            is_connectivity_proof(p, self@),
    {
        let ghost nodes = self@.nodes;
        let n = self.node_states.len();
        let mut expected: Vec<String> = Vec::new();
        let mut matrix: KeyedList<Vec<String>> = KeyedList::new();
        let mut i: usize = 0;
        proof { lemma_viewed_keys(self.node_states@, Seq::empty()); }
        while i < n
            invariant
                n == self.node_states@.len(),
                nodes == viewed(self.node_states@),
                unique_keys(self.node_states@),
                0 <= i <= n,
                string_views(expected@) == keys_of(nodes).take(i as int),
                keys_of(matrix@) == keys_of(nodes).take(i as int),
                matrix@.len() == i,
                unique_keys(matrix@),
                forall|j: int| 0 <= j < i ==>
                    string_views((#[trigger] matrix@[j]).1@) == first_occurrences(nodes[j].1.connected_peers),
            decreases n - i,
        {
            let key = self.node_states.key_at(i);
            let st = self.node_states.value_at(i);
            proof { lemma_node_view(self.node_states@, i as int); }
            let ghost before = expected@;
            let ghost m0 = matrix@;
            expected.push(key.clone());
            assert(string_views(expected@) =~= string_views(before).push(key@));
            assert(keys_of(nodes).take(i + 1) =~= keys_of(nodes).take(i as int).push(key@));
            let peers = dedup_strings(st.connected_peers.as_slice());
            assert(!crate::keyed::has_key(m0, key@)) by {
                if crate::keyed::has_key(m0, key@) {
                    let j = choose|j: int| 0 <= j < m0.len() && #[trigger] m0[j].0 == key@;
                    assert(keys_of(m0)[j] == key@);
                    assert(keys_of(nodes)[j] == key@);
                    assert(self.node_states@[j].0 != self.node_states@[i as int].0);
                }
            }
            matrix.insert(key.clone(), peers);
            assert(matrix@ == m0.push((key@, peers)));
            assert(keys_of(matrix@) =~= keys_of(m0).push(key@));
            i = i + 1;
        }
        assert(keys_of(nodes).take(n as int) =~= keys_of(nodes));
        let observed = duplicate_strings(expected.as_slice());
        let zero = [0u8; 32];
        assert(zero@ =~= seq![0u8; 32]);
        NetworkConnectivityProof {
            observer_id: self.config.observer_id.clone(),
            timestamp_ms: unix_time_ms(),
            expected_peers: expected,
            observed_peers: observed,
            connectivity_matrix: matrix,
            attestation: SignedAttestation::new(self.config.observer_id.clone(), ProofType::Connectivity, zero),
        }
    }

    /// The CRDT convergence proof (see [`CrdtVerifier::generate_proof`]).
    pub fn generate_crdt_proof(&self) -> (p: CrdtConvergenceProof)
        requires
            self.wf(),
        ensures
            is_convergence_proof(p, self@.crdt, self@.observer_id),
    {
        self.crdt_verifier.generate_proof(self.config.observer_id.clone())
    }

    /// A whole run: connectivity, gossip (judged on `gossip`) and CRDT
    /// convergence, in that order, with their proofs. The run passes when
    /// every step does; otherwise the logs are investigated when that is
    /// configured, and the failed steps are summed up.
    pub fn run_comprehensive_test(&mut self, gossip: &GossipSummary) -> (r: OrchestratorReport)
        requires
            old(self).wf(),
            within_memory(old(self)@.nodes),
        ensures
            final(self).wf(),
            final(self)@ == (ProofOrchestratorView { crdt: final(self)@.crdt, ..old(self)@ }),
            convergence_checked(old(self)@.crdt, final(self)@.crdt),
            r.session_id@ == old(self)@.session_id,
            r.passed == (old(self)@.nodes.len() >= old(self)@.min_nodes && gossip.all_valid()
                && all_same_hash(old(self)@.crdt.current)),
            r.step_results@.len() == 3,
            r.step_results@[0].name@ == "connectivity"@,
            r.step_results@[0].passed == (old(self)@.nodes.len() >= old(self)@.min_nodes),
            r.step_results@[1].name@ == "gossip_protocols"@,
            r.step_results@[1].passed == gossip.all_valid(),
            r.step_results@[2].name@ == "crdt_convergence"@,
            r.step_results@[2].passed == all_same_hash(old(self)@.crdt.current),
            test_anomaly_views(r.all_anomalies@) == test_anomaly_views(r.step_results@[0].anomalies@)
                + test_anomaly_views(r.step_results@[1].anomalies@) + test_anomaly_views(r.step_results@[2].anomalies@),
            r.connectivity_proof matches Some(p) && is_connectivity_proof(p, old(self)@),
            r.crdt_proof matches Some(p) && is_convergence_proof(p, final(self)@.crdt, old(self)@.observer_id),
            r.debug_report is Some <==> (!r.passed && old(self)@.debug_on_failure),
            r.debug_report matches Some(d) ==> is_investigation(d, old(self)@.debugger),
            r.failure_summary is Some <==> !r.passed,
            r.failure_summary matches Some(f) ==> f@ == "Test failed at steps: "@
                + joined(failed_steps(r.step_results@[0].passed, r.step_results@[1].passed, r.step_results@[2].passed), ", "@)
                + ". Total anomalies: "@ + decimal(r.all_anomalies@.len()),
    {
        let started_at_ms = unix_time_ms();
        let mut all_anomalies: Vec<TestAnomaly> = Vec::new();
        let mut step_results: Vec<StepResult> = Vec::new();

        let connectivity = self.verify_connectivity();
        let mut a0 = duplicate_anomalies(connectivity.anomalies.as_slice());
        all_anomalies.append(&mut a0);
        let conn_ok = connectivity.passed;
        let ghost v0 = test_anomaly_views(connectivity.anomalies@);
        assert(test_anomaly_views(all_anomalies@) =~= v0);
        step_results.push(connectivity);
        let connectivity_proof = Some(self.generate_connectivity_proof());

        let gossip_step = self.verify_gossip(gossip);
        let mut a1 = duplicate_anomalies(gossip_step.anomalies.as_slice());
        let ghost before1 = all_anomalies@;
        all_anomalies.append(&mut a1);
        let gossip_ok = gossip_step.passed;
        let ghost v1 = test_anomaly_views(gossip_step.anomalies@);
        assert(test_anomaly_views(all_anomalies@) =~= test_anomaly_views(before1) + v1);
        step_results.push(gossip_step);

        let crdt_step = self.verify_crdt();
        let mut a2 = duplicate_anomalies(crdt_step.anomalies.as_slice());
        let ghost before2 = all_anomalies@;
        all_anomalies.append(&mut a2);
        let crdt_ok = crdt_step.passed;
        let ghost v2 = test_anomaly_views(crdt_step.anomalies@);
        assert(test_anomaly_views(all_anomalies@) =~= test_anomaly_views(before2) + v2);
        step_results.push(crdt_step);
        let crdt_proof = Some(self.generate_crdt_proof());

        let passed = conn_ok && gossip_ok && crdt_ok;
        let debug_report = if !passed && self.config.debug_on_failure {
            Some(self.debugger.investigate())
        } else {
            None
        };
        let failure_summary = if !passed {
            let mut failed: Vec<String> = Vec::new();
            if !conn_ok {
                failed.push(owned("connectivity"));
            }
            if !gossip_ok {
                failed.push(owned("gossip_protocols"));
            }
            if !crdt_ok {
                failed.push(owned("crdt_convergence"));
            }
            assert(string_views(failed@) =~= failed_steps(conn_ok, gossip_ok, crdt_ok));
            let listed = join(failed.as_slice(), ", ");
            let mut summary = concat2("Test failed at steps: ", listed.as_str());
            summary.append(". Total anomalies: ");
            summary.append(usize_to_text(all_anomalies.len()).as_str());
            Some(summary)
        } else {
            None
        };
        OrchestratorReport {
            session_id: self.session_id.clone(),
            started_at_ms,
            completed_at_ms: unix_time_ms(),
            passed,
            step_results,
            connectivity_proof,
            crdt_proof,
            debug_report,
            all_anomalies,
            failure_summary,
        }
    }

    /// Starts over for a new run: fresh verifier and debugger with the same
    /// settings, no nodes, and a fresh session identifier.
    pub fn reset(&mut self)
        requires
            old(self).wf(),
        ensures
            final(self).wf(),
            final(self)@.observer_id == old(self)@.observer_id,
            final(self)@.max_proof_age_secs == old(self)@.max_proof_age_secs,
            final(self)@.min_nodes == old(self)@.min_nodes,
            final(self)@.debug_on_failure == old(self)@.debug_on_failure,
            final(self)@.require_cross_validation == old(self)@.require_cross_validation,
            final(self)@.nodes.len() == 0,
            final(self)@.crdt.config == old(self)@.crdt.config,
            final(self)@.crdt.crdt_type == CrdtType::PeerCache,
            final(self)@.crdt.operations.len() == 0,
            final(self)@.crdt.initial.len() == 0,
            final(self)@.crdt.current.len() == 0,
            !final(self)@.crdt.converged(),
            final(self)@.debugger == (AutomatedDebuggerView { logs: Seq::empty(), ..old(self)@.debugger }),
            is_hyphenated_uuid(final(self)@.session_id),
    {
        self.crdt_verifier = CrdtVerifier::with_config(CrdtType::PeerCache, self.config.crdt_config);
        self.debugger = AutomatedDebugger::with_config(self.config.debug_config.duplicate());
        self.node_states.clear();
        self.session_id = new_uuid_v4();
        assert(self@.nodes =~= Seq::<(Seq<char>, NodeStateView)>::empty());
        assert(self@.debugger.logs =~= Seq::<crate::debug_automation::LogEntryView>::empty());
        assert(self@.debugger == (AutomatedDebuggerView { logs: Seq::empty(), ..old(self)@.debugger }));
    }
}


// ---------------------------------------------------------------------------
// Report text
// ---------------------------------------------------------------------------

/// Line of a report on step result `s`.
pub open spec fn step_line(s: StepResult) -> Seq<char> {
    "  "@ + (if s.passed { "[PASS]"@ } else { "[FAIL]"@ }) + " "@ + s.name@ + " - "@ + s.details@
        + " ("@ + duration_debug_text(s.duration_ms) + ")"@
}

/// Line of a report on anomaly `a`.
pub open spec fn anomaly_line(a: TestAnomalyView) -> Seq<char> {
    "  - "@ + a.anomaly_type + ": "@ + a.description
}

/// Lines of a report on the anomalies `all`, none when there are none.
pub open spec fn anomaly_lines(all: Seq<TestAnomalyView>) -> Seq<Seq<char>> {
    if all.len() > 0 {
        seq!["Anomalies ("@ + decimal(all.len()) + "):"@]
            + all.map_values(|a: TestAnomalyView| anomaly_line(a)) + seq![""@]
    } else {
        Seq::empty()
    }
}

/// Lines of the text of report `r`.
pub open spec fn orchestrator_report_lines(r: OrchestratorReport) -> Seq<Seq<char>> {
    seq![
        "Proof-Based Test Report"@,
        "======================="@,
        "Session: "@ + r.session_id@,
        "Status: "@ + (if r.passed { "PASSED"@ } else { "FAILED"@ }),
        ""@,
        "Step Results:"@,
    ] + r.step_results@.map_values(|s: StepResult| step_line(s)) + seq![""@]
        + anomaly_lines(test_anomaly_views(r.all_anomalies@))
        + (match r.failure_summary { Some(f) => seq!["Failure Summary: "@ + f@], None => Seq::empty() })
}

/// Writes the lines of the step results `steps`.
fn write_steps(out: &mut String, steps: &Vec<StepResult>, Ghost(lines): Ghost<Seq<Seq<char>>>) -> (r: Ghost<Seq<Seq<char>>>)
    requires
        old(out)@ == lines_text(lines),
    ensures
        r@ == lines + steps@.map_values(|s: StepResult| step_line(s)),
        final(out)@ == lines_text(r@),
{
    let ghost sl = steps@.map_values(|s: StepResult| step_line(s));
    let ghost mut cur = lines;
    let mut i: usize = 0;
    while i < steps.len()
        invariant
            0 <= i <= steps@.len(),
            sl == steps@.map_values(|s: StepResult| step_line(s)),
            cur == lines + sl.take(i as int),
            out@ == lines_text(cur),
        decreases steps@.len() - i,
    {
        let s = &steps[i];
        let mark = if s.passed { "[PASS]" } else { "[FAIL]" };
        let a1 = concat3("  ", mark, " ");
        let a2 = concat3(a1.as_str(), s.name.as_str(), " - ");
        let a3 = concat3(a2.as_str(), s.details.as_str(), " (");
        let item = concat3(a3.as_str(), duration_text(s.duration_ms).as_str(), ")");
        write_line(out, item.as_str(), Ghost(cur));
        proof {
            assert(item@ == sl[i as int]);
            assert(lines + sl.take(i + 1) =~= (lines + sl.take(i as int)).push(item@));
            cur = cur.push(item@);
        }
        i = i + 1;
    }
    assert(sl.take(steps@.len() as int) =~= sl);
    Ghost(cur)
}

/// Writes the lines of the anomalies `all`.
fn write_anomalies(out: &mut String, all: &Vec<TestAnomaly>, Ghost(lines): Ghost<Seq<Seq<char>>>) -> (r: Ghost<Seq<Seq<char>>>)
    requires
        old(out)@ == lines_text(lines),
    ensures
        r@ == lines + anomaly_lines(test_anomaly_views(all@)),
        final(out)@ == lines_text(r@),
{
    let ghost av = test_anomaly_views(all@);
    if all.len() == 0 {
        assert(lines + anomaly_lines(av) =~= lines);
        return Ghost(lines);
    }
    let ghost mut cur = lines;
    let h = concat3("Anomalies (", usize_to_text(all.len()).as_str(), "):");
    write_line(out, h.as_str(), Ghost(cur));
    proof { cur = cur.push(h@); }
    let ghost al = av.map_values(|a: TestAnomalyView| anomaly_line(a));
    let ghost before = cur;
    let mut i: usize = 0;
    while i < all.len()
        invariant
            0 <= i <= all@.len(),
            av == test_anomaly_views(all@),
            al == av.map_values(|a: TestAnomalyView| anomaly_line(a)),
            cur == before + al.take(i as int),
            out@ == lines_text(cur),
        decreases all@.len() - i,
    {
        let a = &all[i];
        let a1 = concat3("  - ", a.anomaly_type.as_str(), ": ");
        let item = concat2(a1.as_str(), a.description.as_str());
        write_line(out, item.as_str(), Ghost(cur));
        proof {
            assert(item@ == al[i as int]);
            assert(before + al.take(i + 1) =~= (before + al.take(i as int)).push(item@));
            cur = cur.push(item@);
        }
        i = i + 1;
    }
    write_line(out, "", Ghost(cur));
    proof {
        assert(al.take(all@.len() as int) =~= al);
        cur = cur.push(""@);
        assert(cur =~= lines + anomaly_lines(av));
    }
    Ghost(cur)
}

impl OrchestratorReport {
    /// The report as text: session, status, the result of each step with
    /// its time, the anomalies and what failed.
    pub fn to_text(&self) -> (s: String)
        ensures
            s@ == lines_text(orchestrator_report_lines(*self)),
    {
        let mut out = String::new();
        let ghost mut lines: Seq<Seq<char>> = Seq::empty();
        assert(out@ =~= lines_text(lines));
        write_line(&mut out, "Proof-Based Test Report", Ghost(lines));
        proof { lines = lines.push("Proof-Based Test Report"@); }
        write_line(&mut out, "=======================", Ghost(lines));
        proof { lines = lines.push("======================="@); }
        let l1 = concat2("Session: ", self.session_id.as_str());
        write_line(&mut out, l1.as_str(), Ghost(lines));
        proof { lines = lines.push(l1@); }
        let l2 = concat2("Status: ", if self.passed { "PASSED" } else { "FAILED" });
        write_line(&mut out, l2.as_str(), Ghost(lines));
        proof { lines = lines.push(l2@); }
        write_line(&mut out, "", Ghost(lines));
        proof { lines = lines.push(""@); }
        write_line(&mut out, "Step Results:", Ghost(lines));
        proof { lines = lines.push("Step Results:"@); }
        let st = write_steps(&mut out, &self.step_results, Ghost(lines));
        proof { lines = st@; }
        write_line(&mut out, "", Ghost(lines));
        proof { lines = lines.push(""@); }
        let an = write_anomalies(&mut out, &self.all_anomalies, Ghost(lines));
        proof { lines = an@; }
        let ghost before_fail = lines;
        match &self.failure_summary {
            Some(f) => {
                let l3 = concat2("Failure Summary: ", f.as_str());
                write_line(&mut out, l3.as_str(), Ghost(lines));
                proof { lines = lines.push(l3@); }
            },
            None => {},
        }
        proof {
            assert(lines =~= orchestrator_report_lines(*self));
        }
        out
    }
}

} // verus!
