use saorsa_quic_test::debug_automation::{
    DebugReport, DebugStats, RootCause, Severity, SeverityCounts, SuggestedFix, Timeline,
};
use saorsa_quic_test::gossip_verification::VerificationSummary as GossipSummary;
use saorsa_quic_test::lib_verification::issue_reporter::{EnvironmentInfo, IssueReport};
use saorsa_quic_test::lib_verification::{summary_text, LibraryVerificationResult, TestResult};
use saorsa_quic_test::proof_orchestrator::{OrchestratorReport, StepResult};
use saorsa_quic_test::registry::TestAnomaly;

fn sample_debug_report() -> DebugReport {
    DebugReport {
        started_at_ms: 0,
        completed_at_ms: 0,
        timeline: Timeline::new(),
        anomalies: vec![],
        root_cause: Some(RootCause {
            primary_pattern: "connection_timeout".to_string(),
            primary_cause: "Network connectivity issue".to_string(),
            primary_severity: Severity::Error,
            primary_count: 2,
            total_anomalies: 3,
            evidence: vec!["[ERROR] node1: timeout".to_string()],
            alternatives: vec![],
        }),
        suggested_fixes: vec![SuggestedFix {
            description: "Check firewall".to_string(),
            priority: 75,
            component: "network".to_string(),
            code_location: None,
        }],
        stats: DebugStats {
            log_lines_analyzed: 10,
            nodes_examined: 2,
            time_span_ms: 500,
            anomalies_by_severity: SeverityCounts { info: 0, warning: 1, error: 2, critical: 0 },
        },
    }
}

#[test]
fn debug_report_text_lists_figures_cause_and_fixes() {
    let text = sample_debug_report().to_text();
    let expected = "Debug Investigation Report\n==========================\n\nStatistics:\n  Log lines analyzed: 10\n  Nodes examined: 2\n  Time span: 500 ms\n\nAnomalies by Severity:\n  ERROR: 2\n  WARN: 1\n\nRoot Cause (confidence: 73%):\n  Network connectivity issue\n\nEvidence:\n  - [ERROR] node1: timeout\n\nSuggested Fixes (by priority):\n  [75] network: Check firewall\n";
    assert_eq!(text, expected);
}

#[test]
fn root_cause_confidence_is_mean_of_share_and_weight() {
    let report = sample_debug_report();
    let rc = report.root_cause.as_ref().unwrap();
    assert_eq!(rc.confidence_percent(), 73);
    let critical_alone = RootCause {
        primary_pattern: "p".to_string(),
        primary_cause: "c".to_string(),
        primary_severity: Severity::Critical,
        primary_count: 1,
        total_anomalies: 1,
        evidence: vec![],
        alternatives: vec![],
    };
    assert_eq!(critical_alone.confidence_percent(), 100);
}

#[test]
fn debug_report_text_without_anomalies() {
    let mut report = sample_debug_report();
    report.root_cause = None;
    report.suggested_fixes.clear();
    report.stats.anomalies_by_severity = SeverityCounts { info: 0, warning: 0, error: 0, critical: 0 };
    assert_eq!(
        report.to_text(),
        "Debug Investigation Report\n==========================\n\nStatistics:\n  Log lines analyzed: 10\n  Nodes examined: 2\n  Time span: 500 ms\n\nAnomalies by Severity:\n\n"
    );
}

#[test]
fn orchestrator_report_text_shows_steps_anomalies_and_failure() {
    let step_ok = StepResult::pass("connectivity", 5, "2 nodes".to_string());
    let step_bad = StepResult::fail(
        "crdt_convergence",
        1500,
        "diverged".to_string(),
        vec![TestAnomaly::new("crdt_divergence".to_string(), "node2 differs".to_string(), 5, 0)],
    );
    let report = OrchestratorReport {
        session_id: "abc".to_string(),
        started_at_ms: 0,
        completed_at_ms: 0,
        passed: false,
        step_results: vec![step_ok, step_bad],
        connectivity_proof: None,
        crdt_proof: None,
        debug_report: None,
        all_anomalies: vec![TestAnomaly::new("crdt_divergence".to_string(), "node2 differs".to_string(), 5, 0)],
        failure_summary: Some("crdt_convergence".to_string()),
    };
    let expected = "Proof-Based Test Report\n=======================\nSession: abc\nStatus: FAILED\n\nStep Results:\n  [PASS] connectivity - 2 nodes (5ms)\n  [FAIL] crdt_convergence - diverged (1.5s)\n\nAnomalies (1):\n  - crdt_divergence: node2 differs\n\nFailure Summary: crdt_convergence\n";
    assert_eq!(report.to_text(), expected);
}

#[test]
fn gossip_summary_text() {
    let s = GossipSummary {
        hyparview_valid: true,
        hyparview_details: "active=4/4, shuffle_rate=0.83".to_string(),
        swim_valid: false,
        swim_details: "ping_rate=0.50".to_string(),
        plumtree_valid: true,
        plumtree_details: "delivery_rate=1.00, tree_valid=true".to_string(),
        nodes_analyzed: 1,
    };
    assert_eq!(
        s.to_text(),
        "Gossip Protocol Verification (1 nodes):\n  HyParView: PASS - active=4/4, shuffle_rate=0.83\n  SWIM:      FAIL - ping_rate=0.50\n  Plumtree:  PASS - delivery_rate=1.00, tree_valid=true\n"
    );
}

#[test]
fn library_summary_text_with_an_issue() {
    let mut gossip = LibraryVerificationResult::new("saorsa-gossip", "0.1.22");
    gossip.add_result(&TestResult::pass("a"));
    gossip.add_result(&TestResult::pass("b"));
    let issue = IssueReport::builder("saorsa-gossip")
        .title("Broken view")
        .test_name("c")
        .label("bug")
        .label("HyParView")
        .build(EnvironmentInfo::default());
    gossip.add_result(&TestResult::fail("c", "bad", issue));
    let quic = LibraryVerificationResult::new("ant-quic", "0.3.0");

    let text = summary_text(&[gossip, quic]);
    let expected = "\n=== Library Verification Report ===\n\n\u{2717} saorsa-gossip v0.1.22\n  Tests: 2/3 passed (66.7%)\n  Issues: 1\n\u{2717} ant-quic v0.3.0\n  Tests: 0/0 passed (0.0%)\n  Issues: 0\n\n=== Issues to Report ===\n\n  [saorsa-gossip/c] Broken view\n    Labels: bug, HyParView\n\n=== Summary ===\n\nLibraries verified: 2\nTotal tests: 3\nPassed: 2\nFailed: 1\nIssues to create: 1\n";
    assert_eq!(text, expected);
}

#[test]
fn library_summary_text_all_passed() {
    let mut r = LibraryVerificationResult::new("ant-quic", "0.3.0");
    r.add_result(&TestResult::pass("a"));
    let text = summary_text(&[r]);
    assert!(text.contains("\u{2713} ant-quic v0.3.0\n  Tests: 1/1 passed (100.0%)\n  Issues: 0\n"));
    assert!(!text.contains("Issues to Report"));
}
