use saorsa_quic_test::dashboard::{default_limit, outcome_symbol, DirectionalStatsApi, FramesQuery};

#[test]
fn summary_symbols() {
    let s = DirectionalStatsApi::from_method_outcome(3, 2, 1, "success", "unknown", "success", "failed", "x", "unknown");
    assert_eq!(s.summary(), "D4✓D6·N4✓N6×R4·R6·");
    assert_eq!(s.attempts, 3);
    assert_eq!(s.successes, 2);
    assert_eq!(s.failures, 1);
    assert_eq!(s.nat_ipv6, "failed");
}

#[test]
fn outcome_symbols() {
    assert_eq!(outcome_symbol("success"), "✓");
    assert_eq!(outcome_symbol("failed"), "×");
    assert_eq!(outcome_symbol("Success"), "·");
}

#[test]
fn frames_limit() {
    assert_eq!(default_limit(), 200);
    assert_eq!(FramesQuery::default().limit, 200);
}
