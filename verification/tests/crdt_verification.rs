use saorsa_quic_test::crdt_verification::{
    compute_state_hash, ConvergenceState, CrdtOperation, CrdtType, CrdtVerifier, OperationTracker,
};

#[test]
fn test_operation_tracking() {
    let mut tracker = OperationTracker::new();

    let op1 = CrdtOperation::new("node1".to_string(), "add".to_string());
    let op2 = CrdtOperation::new("node2".to_string(), "add".to_string());

    tracker.record(op1);
    tracker.record(op2);

    assert_eq!(tracker.all().len(), 2);
    assert!(tracker.for_node("node1").is_some());
}

#[test]
fn test_convergence_detection() {
    let mut state = ConvergenceState::new();
    let hash1 = [1u8; 32];
    let hash2 = [1u8; 32];
    let hash3 = [2u8; 32];

    state.update_current("node1".to_string(), hash1);
    state.update_current("node2".to_string(), hash2);
    assert!(state.is_converged());

    state.update_current("node3".to_string(), hash3);
    assert!(!state.is_converged());
}

#[test]
fn test_divergent_node_detection() {
    let mut state = ConvergenceState::new();
    let majority_hash = [1u8; 32];
    let divergent_hash = [2u8; 32];

    state.update_current("node1".to_string(), majority_hash);
    state.update_current("node2".to_string(), majority_hash);
    state.update_current("node3".to_string(), divergent_hash);

    let divergent = state.divergent_nodes();
    assert_eq!(divergent.len(), 1);
    assert_eq!(*divergent[0], "node3");
}

#[test]
fn test_crdt_verifier() {
    let mut verifier = CrdtVerifier::new(CrdtType::OrSet);

    let initial_hash = [0u8; 32];
    verifier.record_initial_state("node1".to_string(), initial_hash);
    verifier.record_initial_state("node2".to_string(), initial_hash);

    verifier.record_operation(CrdtOperation::new("node1".to_string(), "add".to_string()));
    verifier.record_operation(CrdtOperation::new("node2".to_string(), "add".to_string()));

    let final_hash = [1u8; 32];
    verifier.update_state("node1".to_string(), final_hash);
    verifier.update_state("node2".to_string(), final_hash);

    assert!(verifier.check_convergence());

    let summary = verifier.get_summary();
    assert!(summary.convergence_achieved);
    assert_eq!(summary.nodes_participating, 2);
    assert_eq!(summary.operations_recorded, 2);
}

#[test]
fn test_concurrent_detection() {
    let mut tracker = OperationTracker::new();

    let op1 = CrdtOperation::new("node1".to_string(), "add".to_string());
    let op2 = CrdtOperation::new("node2".to_string(), "add".to_string());

    tracker.record(op1);
    tracker.record(op2);

    let pairs = tracker.find_concurrent_pairs();
    assert!(!pairs.is_empty());
}

#[test]
fn test_state_hash() {
    let data = b"test state data";
    let hash = compute_state_hash(data);
    assert_ne!(hash, [0u8; 32]);

    let hash2 = compute_state_hash(data);
    assert_eq!(hash, hash2);
}

#[test]
fn test_proof_generation() {
    let mut verifier = CrdtVerifier::new(CrdtType::PeerCache);

    let hash = [1u8; 32];
    verifier.record_initial_state("node1".to_string(), hash);
    verifier.update_state("node1".to_string(), hash);

    let proof = verifier.generate_proof("observer".to_string());
    assert_eq!(proof.crdt_type, CrdtType::PeerCache);
    assert!(proof.convergence_achieved);
}

#[test]
fn state_hash_is_sha256() {
    let hash = compute_state_hash(b"abc");
    let expected: [u8; 32] = [
        0xba, 0x78, 0x16, 0xbf, 0x8f, 0x01, 0xcf, 0xea, 0x41, 0x41, 0x40, 0xde, 0x5d, 0xae, 0x22, 0x23, 0xb0, 0x03,
        0x61, 0xa3, 0x96, 0x17, 0x7a, 0x9c, 0xb4, 0x10, 0xff, 0x61, 0xf2, 0x00, 0x15, 0xad,
    ];
    assert_eq!(hash, expected);
}

#[test]
fn operations_of_one_node_are_never_concurrent() {
    let mut tracker = OperationTracker::new();
    tracker.record(CrdtOperation::new("node1".to_string(), "add".to_string()));
    tracker.record(CrdtOperation::new("node1".to_string(), "remove".to_string()));
    assert!(tracker.find_concurrent_pairs().is_empty());
    let all = tracker.all();
    assert!(!tracker.are_concurrent(&all[0], &all[1]));
}

#[test]
fn operations_of_different_nodes_are_concurrent() {
    let mut tracker = OperationTracker::new();
    tracker.record(CrdtOperation::new("a".to_string(), "add".to_string()));
    tracker.record(CrdtOperation::new("b".to_string(), "add".to_string()));
    tracker.record(CrdtOperation::new("c".to_string(), "add".to_string()));
    assert_eq!(tracker.find_concurrent_pairs().len(), 3);
}

#[test]
fn a_single_node_has_converged() {
    let mut state = ConvergenceState::new();
    state.update_current("only".to_string(), [9u8; 32]);
    assert!(state.is_converged());
    assert!(state.divergent_nodes().is_empty());
}

#[test]
fn unconverged_verifier_reports_divergence() {
    let mut verifier = CrdtVerifier::new(CrdtType::GCounter);
    verifier.update_state("n1".to_string(), [1u8; 32]);
    verifier.update_state("n2".to_string(), [1u8; 32]);
    verifier.update_state("n3".to_string(), [2u8; 32]);
    assert!(!verifier.check_convergence());
    let summary = verifier.get_summary();
    assert!(!summary.convergence_achieved);
    assert_eq!(summary.divergent_nodes, vec!["n3".to_string()]);
    assert!(summary.convergence_time_ms.is_none());
}

#[test]
fn verifier_test_id_is_a_uuid() {
    let verifier = CrdtVerifier::new(CrdtType::LwwRegister);
    let id = verifier.test_id();
    assert_eq!(id.len(), 36);
    assert_eq!(id.as_bytes()[8], b'-');
    assert_eq!(id.as_bytes()[14], b'4');
}

#[test]
fn convergence_time_is_kept_by_later_checks() {
    let mut verifier = CrdtVerifier::new(CrdtType::OrSet);
    verifier.record_operation(CrdtOperation::new("node1".to_string(), "add".to_string()));
    verifier.record_operation(CrdtOperation::new("node2".to_string(), "add".to_string()));
    verifier.update_state("node1".to_string(), [1u8; 32]);
    verifier.update_state("node2".to_string(), [1u8; 32]);
    assert!(verifier.check_convergence());
    let first = verifier.get_summary().convergence_time_ms;
    assert!(first.is_some());
    let start = std::time::Instant::now();
    while start.elapsed() < std::time::Duration::from_millis(5) {}
    assert!(verifier.check_convergence());
    assert_eq!(verifier.get_summary().convergence_time_ms, first);
    verifier.update_state("node2".to_string(), [2u8; 32]);
    assert!(!verifier.check_convergence());
    assert_eq!(verifier.get_summary().convergence_time_ms, first);
}

#[test]
fn summary_reports_or_set_conflicts() {
    let mut verifier = CrdtVerifier::new(CrdtType::OrSet);
    verifier.record_operation(CrdtOperation::new("node1".to_string(), "add".to_string()));
    verifier.record_operation(CrdtOperation::new("node2".to_string(), "add".to_string()));
    verifier.update_state("node1".to_string(), [1u8; 32]);
    verifier.update_state("node2".to_string(), [1u8; 32]);
    verifier.check_convergence();
    let s = verifier.get_summary();
    assert!(s.conflict_result.had_conflicts);
    assert!(s.conflict_result.correctly_resolved);
    assert_eq!(s.conflict_result.details, "OR-Set: 0 add/remove conflicts detected (add should win)");
    assert_eq!(s.test_id, verifier.test_id());
}
