//! Proof records that the verifiers hand to the registry.

use vstd::prelude::*;
use crate::keyed::KeyedList;
use crate::crdt_verification::{CrdtOperation, CrdtType};
use crate::text::{string_views, duplicate_strings, duplicate_opt, opt_view};

verus! {

/// What a proof attests.
#[derive(Debug, Clone, Copy, PartialEq, Eq, Structural)]
pub enum ProofType {
    /// Connectivity between nodes.
    Connectivity,
    /// Correct operation of the gossip protocols.
    GossipProtocol,
    /// Convergence of CRDT state.
    CrdtConvergence,
}

/// An observer's attestation of a proof.
pub struct SignedAttestation {
    /// The attesting node.
    pub node_id: String,
    /// What is attested.
    pub proof_type: ProofType,
    /// Hash of the attested proof data.
    pub data_hash: [u8; 32],
}

impl SignedAttestation {
    /// An attestation by `node_id` of a proof of kind `proof_type` over `data_hash`.
    pub fn new(node_id: String, proof_type: ProofType, data_hash: [u8; 32]) -> (a: Self)
        ensures
            a.node_id@ == node_id@,
            a.proof_type == proof_type,
            a.data_hash == data_hash,
    {
        SignedAttestation { node_id, proof_type, data_hash }
    }
}

/// Proof that the nodes of a test converged to one CRDT state.
pub struct CrdtConvergenceProof {
    /// Test identifier.
    pub test_id: String,
    /// Kind of CRDT tested.
    pub crdt_type: CrdtType,
    /// State hash the nodes started from.
    pub initial_state_hash: [u8; 32],
    /// Operations performed during the test.
    pub operations: Vec<CrdtOperation>,
    /// Final state hash of every node.
    pub node_final_states: KeyedList<[u8; 32]>,
    /// Whether all nodes ended with the same state.
    pub convergence_achieved: bool,
    /// Time to converge, in milliseconds.
    pub convergence_time_ms: u64,
    /// Whether conflicts were resolved correctly.
    pub conflict_resolution_correct: bool,
    /// Attestations of the proof.
    pub attestations: Vec<SignedAttestation>,
    /// When the proof was made, in milliseconds since the Unix epoch.
    pub timestamp_ms: u64,
}

impl CrdtConvergenceProof {
    /// An empty proof for test `test_id` of a CRDT of kind `crdt_type`.
    pub fn new(test_id: String, crdt_type: CrdtType) -> (p: Self)
        ensures
            p.test_id@ == test_id@,
            p.crdt_type == crdt_type,
            p.initial_state_hash@ == seq![0u8; 32],
            p.operations@.len() == 0,
            p.node_final_states@.len() == 0,
            !p.convergence_achieved,
            p.convergence_time_ms == 0,
            !p.conflict_resolution_correct,
            p.attestations@.len() == 0,
            p.timestamp_ms == 0,
    {
        let p = CrdtConvergenceProof {
            test_id,
            crdt_type,
            initial_state_hash: [0u8; 32],
            operations: Vec::new(),
            node_final_states: KeyedList::new(),
            convergence_achieved: false,
            convergence_time_ms: 0,
            conflict_resolution_correct: false,
            attestations: Vec::new(),
            timestamp_ms: 0,
        };
        assert(p.initial_state_hash@ =~= seq![0u8; 32]);
        p
    }
}

/// An anomaly observed during a test, as reported with a proof.
pub struct TestAnomaly {
    /// Kind of anomaly.
    pub anomaly_type: String,
    /// What was observed.
    pub description: String,
    /// Severity from 1 (lowest) to 5 (critical).
    pub severity: u8,
    /// Nodes involved.
    pub nodes_involved: Vec<String>,
    /// When it was detected, in milliseconds since the Unix epoch.
    pub detected_at_ms: u64,
    /// Where in the code the cause is suspected, if known.
    pub suggested_location: Option<String>,
}

impl TestAnomaly {
    /// An anomaly of kind `anomaly_type` involving no particular node,
    /// detected at `detected_at_ms`.
    pub fn new(anomaly_type: String, description: String, severity: u8, detected_at_ms: u64) -> (a: Self)
        ensures
            a.anomaly_type@ == anomaly_type@,
            a.description@ == description@,
            a.severity == severity,
            a.nodes_involved@.len() == 0,
            a.detected_at_ms == detected_at_ms,
            a.suggested_location is None,
    {
        TestAnomaly {
            anomaly_type,
            description,
            severity,
            nodes_involved: Vec::new(),
            detected_at_ms,
            suggested_location: None,
        }
    }
}

/// Mathematical value of a [`TestAnomaly`].
pub struct TestAnomalyView {
    pub anomaly_type: Seq<char>,
    pub description: Seq<char>,
    pub severity: u8,
    pub nodes_involved: Seq<Seq<char>>,
    pub detected_at_ms: u64,
    pub suggested_location: Option<Seq<char>>,
}

impl View for TestAnomaly {
    type V = TestAnomalyView;

    open spec fn view(&self) -> TestAnomalyView {
        TestAnomalyView {
            anomaly_type: self.anomaly_type@,
            description: self.description@,
            severity: self.severity,
            nodes_involved: string_views(self.nodes_involved@),
            detected_at_ms: self.detected_at_ms,
            suggested_location: opt_view(self.suggested_location),
        }
    }
}

/// Views of a sequence of test anomalies.
pub open spec fn test_anomaly_views(s: Seq<TestAnomaly>) -> Seq<TestAnomalyView> {
    s.map_values(|a: TestAnomaly| a@)
}

impl TestAnomaly {
    /// An independent copy.
    pub fn duplicate(&self) -> (a: Self)
        ensures
            a@ == self@,
    {
        TestAnomaly {
            anomaly_type: self.anomaly_type.clone(),
            description: self.description.clone(),
            severity: self.severity,
            nodes_involved: duplicate_strings(self.nodes_involved.as_slice()),
            detected_at_ms: self.detected_at_ms,
            suggested_location: duplicate_opt(&self.suggested_location),
        }
    }
}

/// Independent copies of test anomalies.
pub fn duplicate_anomalies(s: &[TestAnomaly]) -> (r: Vec<TestAnomaly>)
    ensures
        test_anomaly_views(r@) == test_anomaly_views(s@),
{
    let mut r: Vec<TestAnomaly> = Vec::new();
    let mut i: usize = 0;
    while i < s.len()
        invariant
            0 <= i <= s@.len(),
            test_anomaly_views(r@) == test_anomaly_views(s@).take(i as int),
        decreases s@.len() - i,
    {
        let ghost before = r@;
        r.push(s[i].duplicate());
        assert(test_anomaly_views(r@) =~= test_anomaly_views(before).push(s@[i as int]@));
        assert(test_anomaly_views(s@).take(i + 1) =~= test_anomaly_views(s@).take(i as int).push(s@[i as int]@));
        i = i + 1;
    }
    assert(test_anomaly_views(s@).take(s@.len() as int) =~= test_anomaly_views(s@));
    r
}

/// An observer's proof of which nodes see which.
pub struct NetworkConnectivityProof {
    /// The observer.
    pub observer_id: String,
    /// When the proof was made, in milliseconds since the Unix epoch.
    pub timestamp_ms: u64,
    /// Nodes expected to take part.
    pub expected_peers: Vec<String>,
    /// Nodes observed.
    pub observed_peers: Vec<String>,
    /// For each node, the distinct peers it sees.
    pub connectivity_matrix: KeyedList<Vec<String>>,
    /// The observer's attestation.
    pub attestation: SignedAttestation,
}

} // verus!
