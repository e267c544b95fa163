use saorsa_quic_test::gossip_verification::VerificationSummary as GossipSummary;
use saorsa_quic_test::proof_orchestrator::{
    ConnectionDirection, DataVerificationResult, IpVersion, ProofOrchestrator, ProofOrchestratorConfig, StepResult,
    VerificationKey, VerificationSummary,
};

fn healthy_gossip() -> GossipSummary {
    GossipSummary {
        hyparview_valid: true,
        hyparview_details: "active=4/4".to_string(),
        swim_valid: true,
        swim_details: "ping_rate=0.95".to_string(),
        plumtree_valid: true,
        plumtree_details: "delivery_rate=0.96".to_string(),
        nodes_analyzed: 2,
    }
}

#[test]
fn test_orchestrator_creation() {
    let orchestrator = ProofOrchestrator::new();
    assert!(!orchestrator.session_id().is_empty());
}

#[test]
fn test_node_registration() {
    let mut orchestrator = ProofOrchestrator::new();
    orchestrator.register_node("node1".to_string());
    orchestrator.register_node("node2".to_string());

    assert_eq!(orchestrator.node_count(), 2);
}

#[test]
fn test_connectivity_insufficient_nodes() {
    let mut orchestrator = ProofOrchestrator::new();
    orchestrator.register_node("node1".to_string());

    let result = orchestrator.verify_connectivity();
    assert!(!result.passed);
    assert!(result.details.contains("Insufficient nodes"));
}

#[test]
fn test_connectivity_always_passes_with_relay() {
    let mut orchestrator = ProofOrchestrator::new();
    orchestrator.register_node("node1".to_string());
    orchestrator.register_node("node2".to_string());

    let result = orchestrator.verify_connectivity();
    assert!(result.passed);
}

#[test]
fn test_connectivity_shows_mesh_percentage() {
    let mut orchestrator = ProofOrchestrator::new();
    orchestrator.register_node("node1".to_string());
    orchestrator.register_node("node2".to_string());

    orchestrator.record_connections("node1", vec!["node2".to_string()]);
    orchestrator.record_connections("node2", vec!["node1".to_string()]);

    let result = orchestrator.verify_connectivity();
    assert!(result.passed);
    assert!(result.details.contains("100% mesh"));
}

#[test]
fn test_comprehensive_test() {
    let mut orchestrator = ProofOrchestrator::new();
    orchestrator.register_node("node1".to_string());
    orchestrator.register_node("node2".to_string());

    orchestrator.record_connections("node1", vec!["node2".to_string()]);
    orchestrator.record_connections("node2", vec!["node1".to_string()]);

    let hash = [1u8; 32];
    orchestrator.record_state_hash("node1", hash);
    orchestrator.record_state_hash("node2", hash);

    let report = orchestrator.run_comprehensive_test(&healthy_gossip());
    assert!(report.passed);
    assert_eq!(report.step_results.len(), 3);
    assert!(report.failure_summary.is_none());
    assert!(report.debug_report.is_none());
}

#[test]
fn test_partial_mesh_passes_with_relay() {
    let mut orchestrator = ProofOrchestrator::new();
    orchestrator.register_node("node1".to_string());
    orchestrator.register_node("node2".to_string());
    orchestrator.register_node("node3".to_string());

    orchestrator.record_connections("node1", vec!["node2".to_string()]);
    orchestrator.record_connections("node2", vec!["node3".to_string()]);
    orchestrator.record_connections("node3", vec!["node1".to_string()]);

    let result = orchestrator.verify_connectivity();
    assert!(result.passed);
    assert!(result.details.contains("50% mesh"));
}

#[test]
fn connectivity_details_exactly() {
    let mut o = ProofOrchestrator::new();
    o.register_node("a".to_string());
    o.register_node("b".to_string());
    o.record_connections("a", vec!["b".to_string()]);
    o.record_data_verification("a", "b", DataVerificationResult::success(true, true, None, IpVersion::V4, ConnectionDirection::Outbound));
    o.record_data_verification("a", "b", DataVerificationResult::failed(IpVersion::V6, ConnectionDirection::Inbound));
    let r = o.verify_connectivity();
    assert_eq!(r.name, "connectivity");
    assert_eq!(r.details, "2 nodes, 1 connections (50% mesh), 1 verified (50% rate), [a:1/1v, b:0/0v]");
    let insufficient = ProofOrchestrator::new().verify_connectivity();
    assert_eq!(insufficient.details, "Insufficient nodes: 0 < 2");
    assert_eq!(insufficient.anomalies.len(), 1);
    assert_eq!(insufficient.anomalies[0].anomaly_type, "insufficient_nodes");
    assert_eq!(insufficient.anomalies[0].description, "Need at least 2 nodes");
    assert_eq!(insufficient.anomalies[0].severity, 4);
}

#[test]
fn mesh_percentage_is_rounded() {
    // Eight nodes with one connection among them: 1/56 of a full mesh, about 2%.
    let mut o = ProofOrchestrator::new();
    for i in 0..8 {
        o.register_node(format!("n{}", i));
    }
    o.record_connections("n0", vec!["n1".to_string()]);
    assert!(o.verify_connectivity().details.contains("(2% mesh)"));
}

#[test]
fn verification_summaries() {
    let mut o = ProofOrchestrator::new();
    o.register_node("a".to_string());
    o.record_data_verification("a", "p", DataVerificationResult::success(true, true, None, IpVersion::V4, ConnectionDirection::Outbound));
    o.record_data_verification("a", "p", DataVerificationResult::success(true, true, None, IpVersion::V6, ConnectionDirection::Inbound));
    o.record_data_verification("a", "q", DataVerificationResult::success(true, false, None, IpVersion::V4, ConnectionDirection::Inbound));
    // The same connection again replaces the earlier result.
    o.record_data_verification("a", "p", DataVerificationResult::success(true, true, None, IpVersion::V4, ConnectionDirection::Outbound));
    let s: VerificationSummary = o.get_verification_summary("a");
    assert_eq!(s.total_tests, 3);
    assert_eq!(s.verified_count, 2);
    assert_eq!(s.failed_count, 1);
    assert_eq!(s.ipv4_verified, 1);
    assert_eq!(s.ipv6_verified, 1);
    assert!(s.has_verified_connections());
    assert!(s.has_dual_stack());
    assert!(s.has_bidirectional());
    let none = o.get_verification_summary("zz");
    assert_eq!(none.total_tests, 0);
    assert!(!none.has_verified_connections());
    let agg = o.get_aggregated_verification_summary();
    assert_eq!(agg.total_tests, 3);
    let by_protocol = o.verify_connectivity_by_protocol();
    assert_eq!(by_protocol[0].name, "connectivity_IPv4");
    assert_eq!(by_protocol[0].details, "1 verified out of 2 IPv4 connections");
    assert_eq!(by_protocol[1].details, "1 verified out of 1 IPv6 connections");
    let inbound = o.verify_inbound_connectivity();
    assert_eq!(inbound.details, "inbound: 1/2, outbound: 1/1, bidirectional: yes");
}

#[test]
fn failing_run_is_summed_up_and_investigated() {
    let mut o = ProofOrchestrator::new();
    o.register_node("a".to_string());
    o.record_state_hash("a", [1u8; 32]);
    o.record_state_hash("b", [2u8; 32]);
    o.record_state_hash("c", [2u8; 32]);
    let mut gossip = healthy_gossip();
    gossip.swim_valid = false;
    let report = o.run_comprehensive_test(&gossip);
    assert!(!report.passed);
    assert!(report.debug_report.is_some());
    assert_eq!(report.step_results[1].anomalies[0].description, "SWIM verification failed: ping_rate=0.95");
    assert_eq!(report.step_results[2].anomalies[0].description, "Node a has divergent state");
    assert_eq!(report.all_anomalies.len(), 3);
    assert_eq!(
        report.failure_summary.as_deref(),
        Some("Test failed at steps: connectivity, gossip_protocols, crdt_convergence. Total anomalies: 3")
    );
    let gossip_step = o.verify_gossip(&gossip);
    assert_eq!(gossip_step.details, "HyParView:OK SWIM:FAIL Plumtree:OK");
}

#[test]
fn connectivity_proof_lists_distinct_peers() {
    let mut o = ProofOrchestrator::new();
    o.register_node("a".to_string());
    o.register_node("b".to_string());
    o.record_connections("a", vec!["b".to_string(), "b".to_string(), "c".to_string()]);
    let proof = o.generate_connectivity_proof();
    assert_eq!(proof.expected_peers, vec!["a".to_string(), "b".to_string()]);
    assert_eq!(proof.observed_peers, proof.expected_peers);
    assert_eq!(proof.connectivity_matrix.get("a").unwrap(), &vec!["b".to_string(), "c".to_string()]);
    assert_eq!(proof.attestation.node_id, "orchestrator");
    assert_eq!(proof.attestation.data_hash, [0u8; 32]);
}

#[test]
fn reset_starts_over() {
    let mut o = ProofOrchestrator::with_config(ProofOrchestratorConfig::default());
    let first = o.session_id().to_string();
    o.register_node("a".to_string());
    o.reset();
    assert_eq!(o.node_count(), 0);
    assert_ne!(o.session_id(), first);
    assert_eq!(o.session_id().len(), 36);
}

#[test]
fn steps_and_keys() {
    let pass = StepResult::pass("s", 5, "fine".to_string());
    assert!(pass.passed);
    assert_eq!(pass.duration_ms, 5);
    let fail = StepResult::fail("s", 6, "bad".to_string(), Vec::new());
    assert!(!fail.passed);
    let key = VerificationKey::new("p".to_string(), IpVersion::V6, ConnectionDirection::Inbound);
    assert_eq!(key.peer_id, "p");
    assert_eq!(IpVersion::V4.label(), "IPv4");
    assert_eq!(ConnectionDirection::Outbound.label(), "outbound");
    assert!(!DataVerificationResult::failed(IpVersion::V4, ConnectionDirection::Inbound).is_success());
}

#[test]
fn reset_keeps_the_settings() {
    let mut config = ProofOrchestratorConfig::default();
    config.max_proof_age_secs = 7;
    config.require_cross_validation = false;
    config.debug_config.correlation_window_ms = 1234;
    let mut orchestrator = ProofOrchestrator::with_config(config);
    orchestrator.register_node("node1".to_string());
    orchestrator.record_state_hash("node1", [3u8; 32]);
    orchestrator.reset();
    assert_eq!(orchestrator.node_count(), 0);
    let c = orchestrator.config();
    assert_eq!(c.max_proof_age_secs, 7);
    assert!(!c.require_cross_validation);
    assert_eq!(c.debug_config.correlation_window_ms, 1234);
}

#[test]
fn default_orchestrator_settings() {
    let orchestrator = ProofOrchestrator::new();
    let c = orchestrator.config();
    assert_eq!(c.max_proof_age_secs, 30);
    assert!(c.require_cross_validation);
    assert_eq!(c.debug_config.correlation_window_ms, 5000);
    assert_eq!(c.debug_config.max_log_lines, 10_000);
}
