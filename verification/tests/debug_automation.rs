use saorsa_quic_test::debug_automation::{
    AutomatedDebugger, DebuggerConfig, EventType, LogEntry, Severity,
};
use std::time::{SystemTime, UNIX_EPOCH};

fn now_ms() -> u64 {
    SystemTime::now().duration_since(UNIX_EPOCH).map(|d| d.as_millis() as u64).unwrap_or(0)
}

#[test]
fn test_log_parsing() {
    let entry = AutomatedDebugger::parse_log_line("node1", "[2024-01-15 10:30:45] ERROR connection timeout");
    assert!(entry.is_some());
    let entry = entry.unwrap();
    assert_eq!(entry.level, "ERROR");
}

#[test]
fn test_anomaly_detection() {
    let mut debugger = AutomatedDebugger::new();
    debugger.add_logs(vec![
        LogEntry::new("node1", now_ms(), "ERROR", "active peers 0"),
        LogEntry::new("node2", now_ms(), "WARN", "connection timeout"),
    ]);

    let anomalies = debugger.detect_anomalies();
    assert!(!anomalies.is_empty());
}

#[test]
fn test_timeline_building() {
    let mut debugger = AutomatedDebugger::new();
    debugger.add_logs(vec![
        LogEntry::new("node1", now_ms(), "INFO", "Node started"),
        LogEntry::new("node2", now_ms(), "INFO", "Connected to peer"),
    ]);

    let timeline = debugger.build_timeline();
    assert_eq!(timeline.events().len(), 2);
}

#[test]
fn test_full_investigation() {
    let mut debugger = AutomatedDebugger::new();
    debugger.add_logs(vec![
        LogEntry::new("node1", now_ms(), "ERROR", "0 active peers"),
        LogEntry::new("node1", now_ms(), "WARN", "connection timeout"),
        LogEntry::new("node2", now_ms(), "ERROR", "active peers 0"),
    ]);

    let report = debugger.investigate();
    assert!(report.root_cause.is_some());
    assert!(!report.suggested_fixes.is_empty());
}

#[test]
fn test_severity_ordering() {
    assert!(Severity::Critical > Severity::Error);
    assert!(Severity::Error > Severity::Warning);
    assert!(Severity::Warning > Severity::Info);
}

#[test]
fn blank_lines_are_not_log_entries() {
    assert!(AutomatedDebugger::parse_log_line("n", "   \t ").is_none());
    let e = AutomatedDebugger::parse_log_line("n", "  just a note  ").unwrap();
    assert_eq!(e.level, "INFO");
    assert_eq!(e.message, "just a note");
    let w = AutomatedDebugger::parse_log_line("n", "a warning here").unwrap();
    assert_eq!(w.level, "WARN");
}

#[test]
fn timeline_is_ordered_by_time_and_classified() {
    let mut debugger = AutomatedDebugger::new();
    debugger.add_logs(vec![
        LogEntry::new("b", 30, "error", "disk full"),
        LogEntry::new("a", 10, "INFO", "Connected to peer"),
        LogEntry::new("c", 20, "INFO", "shutdown requested"),
    ]);
    let timeline = debugger.build_timeline();
    let events = timeline.events();
    assert_eq!(events.len(), 3);
    assert_eq!(events[0].timestamp_ms, 10);
    assert_eq!(events[1].timestamp_ms, 20);
    assert_eq!(events[2].timestamp_ms, 30);
    assert_eq!(events[0].event_type, EventType::ConnectionEstablished);
    assert_eq!(events[1].event_type, EventType::NodeStop);
    // The lower-case level is upper-cased before it is classified.
    assert_eq!(events[2].event_type, EventType::Error);
}

#[test]
fn logs_beyond_the_limit_are_dropped() {
    let mut config = DebuggerConfig::default();
    config.max_log_lines = 2;
    let mut debugger = AutomatedDebugger::with_config(config);
    debugger.add_logs(vec![
        LogEntry::new("a", 1, "INFO", "one"),
        LogEntry::new("a", 2, "INFO", "two"),
        LogEntry::new("a", 3, "INFO", "three"),
    ]);
    assert_eq!(debugger.build_timeline().events().len(), 2);
}

#[test]
fn root_cause_is_the_most_frequent_pattern() {
    let mut debugger = AutomatedDebugger::new();
    debugger.add_logs(vec![
        LogEntry::new("node1", 1000, "ERROR", "0 active peers"),
        LogEntry::new("node1", 1001, "WARN", "connection timeout"),
        LogEntry::new("node2", 1002, "ERROR", "active peers 0"),
    ]);
    let anomalies = debugger.detect_anomalies();
    let rc = debugger.identify_root_cause(&anomalies).unwrap();
    assert_eq!(rc.total_anomalies, anomalies.len());
    assert!(rc.primary_count >= 1);
    assert!(rc.evidence.len() <= 5);
    assert_eq!(rc.evidence.len(), rc.primary_count.min(5));
    for (name, count) in &rc.alternatives {
        assert_ne!(name, &rc.primary_pattern);
        assert!(*count <= rc.primary_count);
    }
    let (num, den) = rc.confidence_ratio();
    assert_eq!(den, 20 * rc.total_anomalies as u128);
    assert!(num <= den);
}

#[test]
fn no_anomalies_no_root_cause() {
    let debugger = AutomatedDebugger::new();
    assert!(debugger.identify_root_cause(&[]).is_none());
    let report = debugger.investigate();
    assert!(report.root_cause.is_none());
    assert_eq!(report.stats.log_lines_analyzed, 0);
    assert_eq!(report.stats.time_span_ms, 0);
}

#[test]
fn investigation_statistics() {
    let mut debugger = AutomatedDebugger::new();
    debugger.add_logs(vec![
        LogEntry::new("node1", 5000, "ERROR", "0 active peers"),
        LogEntry::new("node2", 2000, "INFO", "fine"),
        LogEntry::new("node1", 9000, "INFO", "still fine"),
    ]);
    let report = debugger.investigate();
    assert_eq!(report.stats.log_lines_analyzed, 3);
    assert_eq!(report.stats.nodes_examined, 2);
    assert_eq!(report.stats.time_span_ms, 7000);
    let counts = &report.stats.anomalies_by_severity;
    assert_eq!(counts.info + counts.warning + counts.error + counts.critical, report.anomalies.len());
}

#[test]
fn anomaly_as_test_anomaly() {
    let mut debugger = AutomatedDebugger::new();
    debugger.add_logs(vec![LogEntry::new("node7", 42, "ERROR", "0 active peers")]);
    let anomalies = debugger.detect_anomalies();
    assert!(!anomalies.is_empty());
    let a = &anomalies[0];
    let t = a.to_test_anomaly();
    assert_eq!(t.anomaly_type, a.pattern_name);
    assert_eq!(t.description, format!("[{}] node7: 0 active peers", a.severity.label()));
    assert_eq!(t.nodes_involved, vec!["node7".to_string()]);
    assert_eq!(t.detected_at_ms, 42);
    let expected = match a.severity {
        Severity::Critical => 5,
        Severity::Error => 4,
        Severity::Warning => 3,
        Severity::Info => 2,
    };
    assert_eq!(t.severity, expected);
}

#[test]
fn suggestions_are_by_priority() {
    let mut debugger = AutomatedDebugger::new();
    debugger.add_logs(vec![
        LogEntry::new("n", 1, "WARN", "connection timeout"),
        LogEntry::new("n", 2, "ERROR", "0 active peers"),
    ]);
    let anomalies = debugger.detect_anomalies();
    let fixes = debugger.generate_suggestions(&anomalies);
    assert!(!fixes.is_empty());
    for w in fixes.windows(2) {
        assert!(w[0].priority >= w[1].priority);
    }
}

#[test]
fn anomalies_close_in_time_are_related() {
    let mut debugger = AutomatedDebugger::new();
    debugger.add_logs(vec![
        LogEntry::new("n1", 1000, "ERROR", "0 active peers"),
        LogEntry::new("n2", 2000, "ERROR", "0 active peers"),
        LogEntry::new("n3", 100_000, "ERROR", "0 active peers"),
    ]);
    let anomalies = debugger.detect_anomalies();
    assert!(anomalies.len() >= 3);
    assert!(anomalies[0].related.contains(&1));
    assert!(anomalies[1].related.contains(&0));
    assert!(!anomalies[0].related.contains(&2));
}

#[test]
fn clearing_drops_the_logs() {
    let mut debugger = AutomatedDebugger::new();
    debugger.add_logs(vec![LogEntry::new("n", 1, "ERROR", "0 active peers")]);
    debugger.clear();
    assert!(debugger.detect_anomalies().is_empty());
}

#[test]
fn disconnect_logs_are_lost_connections() {
    let mut debugger = AutomatedDebugger::new();
    debugger.add_logs(vec![
        LogEntry::new("node1", 1, "INFO", "Peer disconnected"),
        LogEntry::new("node1", 2, "INFO", "Connection lost to relay"),
        LogEntry::new("node1", 3, "INFO", "Connected to peer"),
    ]);
    let timeline = debugger.build_timeline();
    let events = timeline.events();
    assert_eq!(events[0].event_type, EventType::ConnectionLost);
    assert_eq!(events[1].event_type, EventType::ConnectionLost);
    assert_eq!(events[2].event_type, EventType::ConnectionEstablished);
}

#[test]
fn sorting_a_sorted_timeline_changes_nothing() {
    let mut debugger = AutomatedDebugger::new();
    debugger.add_logs(vec![
        LogEntry::new("node2", 5, "INFO", "b"),
        LogEntry::new("node1", 1, "INFO", "a"),
        LogEntry::new("node3", 5, "INFO", "c"),
    ]);
    let mut timeline = debugger.build_timeline();
    let before: Vec<String> = timeline.events().iter().map(|e| e.description.clone()).collect();
    assert_eq!(before, vec!["a", "b", "c"]);
    timeline.sort_by_time();
    let after: Vec<String> = timeline.events().iter().map(|e| e.description.clone()).collect();
    assert_eq!(before, after);
}

#[test]
fn cleared_debugger_has_empty_timeline_and_no_anomalies() {
    let mut debugger = AutomatedDebugger::new();
    debugger.add_logs(vec![LogEntry::new("node1", 1, "ERROR", "connection timeout")]);
    debugger.clear();
    assert!(debugger.build_timeline().events().is_empty());
    assert!(debugger.detect_anomalies().is_empty());
}
