use saorsa_quic_test::lib_verification::gossip_tests::{get_gossip_version, test_hyparview_shuffle_success, verify_saorsa_gossip};
use saorsa_quic_test::lib_verification::issue_reporter::{
    os_version_from_release, EnvironmentInfo, ExistingIssue, IssueCreationError, IssueReport,
};
use saorsa_quic_test::lib_verification::quic_tests::{get_quic_version, verify_ant_quic};
use saorsa_quic_test::lib_verification::{LibraryVerificationResult, TestResult, TestStatus, VerificationConfig};

#[test]
fn test_library_verification_result_new() {
    let result = LibraryVerificationResult::new("test-lib", "1.0.0");
    assert_eq!(result.library, "test-lib");
    assert_eq!(result.version, "1.0.0");
    assert_eq!(result.tests_run, 0);
    assert!(!result.all_passed());
}

#[test]
fn test_library_verification_result_all_passed() {
    let mut result = LibraryVerificationResult::new("test-lib", "1.0.0");
    result.tests_run = 5;
    result.tests_passed = 5;
    assert!(result.all_passed());
}

#[test]
fn test_test_result_pass() {
    let result = TestResult::pass("my_test");
    assert_eq!(result.name, "my_test");
    assert_eq!(result.status, TestStatus::Passed);
    assert!(result.message.is_none());
    assert!(result.issue_to_report.is_none());
}

#[test]
fn test_test_result_warn() {
    let result = TestResult::warn("my_test", "Something iffy");
    assert_eq!(result.status, TestStatus::Warning);
    assert_eq!(result.message, Some("Something iffy".to_string()));
}

#[test]
fn test_test_result_skip() {
    let result = TestResult::skip("my_test", "Feature not available");
    assert_eq!(result.status, TestStatus::Skipped);
}

#[test]
fn test_verification_config_default() {
    let config = VerificationConfig::default();
    assert!(config.test_saorsa_gossip);
    assert!(config.test_ant_quic);
    assert!(!config.auto_create_issues);
}

#[test]
fn test_verification_config_ci() {
    let config = VerificationConfig::ci();
    assert_eq!(config.cluster_size, 3);
    assert!(!config.include_stress_tests);
}

#[test]
fn test_verification_config_production() {
    let config = VerificationConfig::production();
    assert!(config.auto_create_issues);
    assert!(config.include_stress_tests);
}

#[test]
fn test_gossip_version() {
    let version = get_gossip_version();
    assert!(!version.is_empty());
}

#[test]
fn test_quic_version() {
    let version = get_quic_version();
    assert!(!version.is_empty());
}

#[test]
fn outcomes_are_counted_once_each() {
    let mut result = LibraryVerificationResult::new("lib", "0.1");
    let issue = IssueReport::builder("lib").title("broken").build(EnvironmentInfo::default());
    result.add_result(&TestResult::pass("a"));
    result.add_result(&TestResult::fail("b", "bad", issue));
    result.add_result(&TestResult::warn("c", "hmm"));
    result.add_result(&TestResult::skip("d", "n/a"));
    result.add_result(&TestResult::pass_with_message("e", "ok"));
    assert_eq!(result.tests_run, 5);
    assert_eq!(result.tests_passed, 2);
    assert_eq!(result.tests_failed, 1);
    assert_eq!(result.tests_warned, 1);
    assert_eq!(result.tests_skipped, 1);
    assert_eq!(
        result.tests_run,
        result.tests_passed + result.tests_failed + result.tests_warned + result.tests_skipped
    );
    assert_eq!(result.issues_to_report.len(), 1);
    assert_eq!(result.issues_to_report[0].title, "broken");
    assert!(!result.all_passed());
}

#[test]
fn durations_are_kept() {
    let r = TestResult::warn("x", "y").with_duration(17);
    assert_eq!(r.duration_ms, 17);
    assert_eq!(r.status, TestStatus::Warning);
    assert_eq!(r.name, "x");
}

#[test]
fn versions_under_verification() {
    assert_eq!(get_gossip_version(), "0.1.22");
    assert_eq!(get_quic_version(), "0.3.0");
}

#[test]
fn test_issue_report_builder() {
    let report = IssueReport::builder("saorsa-gossip")
        .title("HyParView returns empty active view")
        .test_name("test_hyparview_active_view_size")
        .expected("At least 1 peer in active view")
        .actual("0 peers returned")
        .label("bug")
        .build(EnvironmentInfo::default());

    assert_eq!(report.library, "saorsa-gossip");
    assert_eq!(report.title, "HyParView returns empty active view");
    assert_eq!(report.labels, vec!["bug"]);
    assert!(report.body.contains("Expected"));
    assert!(report.body.contains("Actual"));
}

#[test]
fn test_github_repo_mapping() {
    let report = IssueReport::builder("saorsa-gossip").title("test").build(EnvironmentInfo::default());
    assert_eq!(report.github_repo(), Some("dirvine/saorsa-gossip"));

    let report = IssueReport::builder("ant-quic").title("test").build(EnvironmentInfo::default());
    assert_eq!(report.github_repo(), Some("dirvine/ant-quic"));

    let report = IssueReport::builder("unknown-lib").title("test").build(EnvironmentInfo::default());
    assert_eq!(report.github_repo(), None);
}

#[test]
fn test_github_markdown_format() {
    let report = IssueReport::builder("saorsa-gossip")
        .title("Test issue")
        .test_name("test_example")
        .body("This is a test")
        .build(EnvironmentInfo::default());

    let markdown = report.to_github_markdown();
    assert!(markdown.contains("## Bug Report"));
    assert!(markdown.contains("saorsa-gossip"));
    assert!(markdown.contains("test_example"));
    assert!(markdown.contains("This is a test"));
}

#[test]
fn test_issue_report_builder_with_steps() {
    let report = IssueReport::builder("ant-quic")
        .title("NAT traversal fails")
        .step("Create two nodes behind NAT")
        .step("Attempt connection")
        .step("Observe timeout")
        .build(EnvironmentInfo::default());

    assert!(report.body.contains("Steps to reproduce"));
    assert!(report.body.contains("1. Create two nodes"));
    assert!(report.body.contains("2. Attempt connection"));
    assert!(report.body.contains("3. Observe timeout"));
}

#[test]
fn formatted_body_exactly() {
    let report = IssueReport::builder("x")
        .expected("E")
        .actual("A")
        .step("s1")
        .step("s2")
        .notes("N")
        .build(EnvironmentInfo::default());
    assert_eq!(
        report.body,
        "**Expected behavior:**\nE\n\n**Actual behavior:**\nA\n\n**Steps to reproduce:**\n1. s1\n2. s2\n\n**Additional notes:**\nN"
    );
    let plain = IssueReport::builder("x").build(EnvironmentInfo::default());
    assert_eq!(plain.body, "");
}

#[test]
fn markdown_exactly() {
    let env = EnvironmentInfo::default().with_library_version("1.2.3").with_commit_hash("abc123");
    let mut report = IssueReport::builder("ant-quic")
        .title("T")
        .test_name("t1")
        .body("B")
        .labels(&["bug", "quic"])
        .build(env);
    report.timestamp_ms = 0;
    report.environment.os = "linux".to_string();
    report.environment.os_version = "6".to_string();
    report.environment.rust_version = "rustc 1".to_string();
    let expected = "## Bug Report\n\n**Library**: ant-quic v1.2.3\n**Test**: t1\n**Timestamp**: 1970-01-01 00:00:00 UTC\n\n### Environment\n- OS: linux 6\n- Rust: rustc 1\n- Commit: abc123\n\n### Description\nB\n\n### Labels\nbug, quic\n\n---\n*Generated by saorsa-quic-test verification harness*\n";
    assert_eq!(report.to_github_markdown(), expected);
    report.environment.commit_hash = None;
    assert!(report.to_github_markdown().contains("- Commit: unknown\n"));
}

#[test]
fn environment_context_replaces_by_key() {
    let mut env = EnvironmentInfo::default();
    env.add_context("k", "1");
    env.add_context("j", "2");
    env.add_context("k", "3");
    assert_eq!(env.additional.len(), 2);
    assert_eq!(env.additional.get("k").map(|s| s.as_str()), Some("3"));
    assert_eq!(env.additional.get("j").map(|s| s.as_str()), Some("2"));
}

#[test]
fn gh_arguments() {
    let report = IssueReport::builder("saorsa-gossip")
        .title("T")
        .label("a")
        .label("b")
        .build(EnvironmentInfo::default());
    let args = report.issue_create_args().ok().unwrap();
    assert_eq!(&args[0..6], &["issue", "create", "--repo", "dirvine/saorsa-gossip", "--title", "T"]);
    assert_eq!(args[6], "--body");
    assert_eq!(args[7], report.to_github_markdown());
    assert_eq!(&args[8..], &["--label", "a,b"]);
    let search = report.issue_search_args().ok().unwrap();
    assert_eq!(
        search,
        vec!["issue", "list", "--repo", "dirvine/saorsa-gossip", "--state", "all", "--search", "T", "--json", "url,title"]
    );
    let unknown = IssueReport::builder("other").build(EnvironmentInfo::default());
    match unknown.issue_create_args() {
        Err(IssueCreationError::UnknownLibrary(l)) => assert_eq!(l, "other"),
        _ => panic!("expected an unknown library"),
    }
    assert!(unknown.issue_search_args().is_err());
}

#[test]
fn duplicates_are_found_by_similar_title() {
    let report = IssueReport::builder("ant-quic").title("NAT fails").build(EnvironmentInfo::default());
    let issues = vec![
        ExistingIssue { url: "u1".to_string(), title: "Other".to_string() },
        ExistingIssue { url: "u2".to_string(), title: "Bug: NAT fails often".to_string() },
    ];
    assert_eq!(report.find_duplicate("... NAT fails ...", &issues), Some("u2".to_string()));
    assert_eq!(report.find_duplicate("nothing", &issues), None);
    assert_eq!(report.find_duplicate("NAT fails", &issues[..1]), None);
}

#[test]
fn error_messages() {
    assert_eq!(IssueCreationError::UnknownLibrary("x".to_string()).message(), "Unknown library: x");
    assert_eq!(IssueCreationError::GhNotAvailable("y".to_string()).message(), "gh CLI not available: y");
    assert_eq!(IssueCreationError::CommandFailed("z".to_string()).message(), "Command failed: z");
}

#[test]
fn test_verify_saorsa_gossip() {
    let config = VerificationConfig::ci();
    let result = verify_saorsa_gossip(&config, &EnvironmentInfo::default());

    assert_eq!(result.tests_run, 12);
    assert_eq!(result.tests_passed, 12);
    assert!(result.all_passed());
}

#[test]
fn test_verify_ant_quic() {
    let config = VerificationConfig::ci();
    let result = verify_ant_quic(&config, &EnvironmentInfo::default());

    assert_eq!(result.tests_run, 12);
    assert!(result.tests_passed + result.tests_warned >= 10);
}

#[test]
fn shuffle_check_reports_rate_to_one_decimal() {
    let r = test_hyparview_shuffle_success(&VerificationConfig::default(), &EnvironmentInfo::default());
    assert_eq!(r.status, TestStatus::Passed);
    assert_eq!(r.message.as_deref(), Some("Shuffle success rate: 83.3%"));
    assert_eq!(r.name, "hyparview_shuffle_success");
}

#[test]
fn gossip_and_quic_runs_stay_balanced() {
    let config = VerificationConfig::production();
    let env = EnvironmentInfo::default();
    let g = verify_saorsa_gossip(&config, &env);
    let q = verify_ant_quic(&config, &env);
    assert_eq!(g.library, "saorsa-gossip");
    assert_eq!(q.library, "ant-quic");
    assert_eq!(q.version, "0.3.0");
    for r in [&g, &q] {
        assert_eq!(r.tests_run, r.tests_passed + r.tests_failed + r.tests_warned + r.tests_skipped);
        assert!(r.issues_to_report.is_empty());
    }
}

#[test]
fn os_release_pretty_name_is_read_without_quotes() {
    let content = "NAME=\"Ubuntu\"\nPRETTY_NAME=\"Ubuntu 22.04.3 LTS\"\nID=ubuntu\n";
    assert_eq!(os_version_from_release(content), "Ubuntu 22.04.3 LTS");
}

#[test]
fn os_release_handles_crlf_lines() {
    assert_eq!(os_version_from_release("ID=debian\r\nPRETTY_NAME=\"Debian GNU/Linux 12\"\r\nX=1"), "Debian GNU/Linux 12");
}

#[test]
fn os_release_without_pretty_name_is_unknown() {
    assert_eq!(os_version_from_release("NAME=Alpine\nID=alpine\n"), "unknown");
    assert_eq!(os_version_from_release(""), "unknown");
}

#[test]
fn os_release_takes_first_pretty_name_and_repeated_prefix() {
    assert_eq!(os_version_from_release("PRETTY_NAME=PRETTY_NAME=x\nPRETTY_NAME=y"), "x");
    assert_eq!(os_version_from_release("A=1\nPRETTY_NAME=\"Z\"\r"), "Z\"\r");
}
