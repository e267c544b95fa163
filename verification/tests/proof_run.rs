use saorsa_quic_test::proof_orchestrator::ProofOrchestrator;
use saorsa_quic_test::proof_run::{proof_test_config, NodeWait, WaitAction, MAX_NODE_POLLS};

#[test]
fn mesh_of_three_peers_is_a_full_mesh() {
    let mut orchestrator = ProofOrchestrator::new();
    let peers = vec!["node1".to_string(), "node2".to_string(), "node3".to_string()];
    orchestrator.register_peer_mesh(&peers);

    assert_eq!(orchestrator.node_count(), 3);
    let result = orchestrator.verify_connectivity();
    assert!(result.passed);
    assert!(result.details.contains("100% mesh"));
}

#[test]
fn mesh_with_repeated_peer_registers_it_once() {
    let mut orchestrator = ProofOrchestrator::new();
    let peers = vec!["node1".to_string(), "node2".to_string(), "node1".to_string()];
    orchestrator.register_peer_mesh(&peers);
    assert_eq!(orchestrator.node_count(), 2);
}

#[test]
fn mesh_keeps_nodes_registered_before() {
    let mut orchestrator = ProofOrchestrator::new();
    orchestrator.register_node("observer".to_string());
    orchestrator.register_peer_mesh(&vec!["node1".to_string()]);
    assert_eq!(orchestrator.node_count(), 2);
}

#[test]
fn wait_proceeds_at_once_with_enough_nodes() {
    let w = NodeWait::new(2);
    assert_eq!(w.first_check(2), WaitAction::Proceed);
    assert_eq!(w.first_check(5), WaitAction::Proceed);
    assert_eq!(w.first_check(1), WaitAction::Poll);
}

#[test]
fn wait_gives_up_on_the_sixty_first_short_poll() {
    let mut w = NodeWait::new(3);
    for k in 1..=MAX_NODE_POLLS {
        assert_eq!(w.after_poll(1), WaitAction::Poll);
        assert_eq!(w.polls, k);
    }
    assert_eq!(w.after_poll(2), WaitAction::GiveUp);
    assert_eq!(w.polls, 61);
}

#[test]
fn wait_proceeds_when_a_poll_finds_enough() {
    let mut w = NodeWait::new(3);
    assert_eq!(w.after_poll(0), WaitAction::Poll);
    assert_eq!(w.after_poll(3), WaitAction::Proceed);
    assert_eq!(w.polls, 1);
}

#[test]
fn command_line_run_settings() {
    let c = proof_test_config(4);
    assert_eq!(c.observer_id, "proof-test-cli");
    assert_eq!(c.min_nodes, 4);
    assert!(c.debug_on_failure);
    assert_eq!(c.max_proof_age_secs, 30);
}
