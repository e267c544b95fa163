//! Bookkeeping for runs that verify the behaviour of the networking
//! libraries against their documentation.
//!
//! A defect found this way is reported upstream as an issue, never worked
//! around locally.

pub mod issue_reporter;
pub mod gossip_tests;
pub mod quic_tests;

use vstd::prelude::*;
use crate::platform::utc_now_ms;
use crate::text::{
    owned, opt_view, decimal, joined, join, lines_text, write_line, concat2, concat3, usize_to_text, u128_to_text,
    percent_tenths, percent_tenths_text,
};
use crate::lib_verification::issue_reporter::{IssueReport, IssueReportView, EnvironmentInfo};
use crate::lib_verification::gossip_tests::verify_saorsa_gossip;
use crate::lib_verification::quic_tests::verify_ant_quic;

verus! {

/// Outcome of one verification test.
#[derive(Debug, Clone, Copy, PartialEq, Eq, Structural)]
pub enum TestStatus {
    /// The library behaved as documented.
    Passed,
    /// It did not; an issue should be filed.
    Failed,
    /// It behaved acceptably, with reservations.
    Warning,
    /// The test did not run.
    Skipped,
}

/// Result of one verification test.
pub struct TestResult {
    /// Test name.
    pub name: String,
    /// Outcome.
    pub status: TestStatus,
    /// What the test has to say, if anything.
    pub message: Option<String>,
    /// Duration in milliseconds.
    pub duration_ms: u64,
    /// The issue to file, for a failure.
    pub issue_to_report: Option<IssueReport>,
}

/// The view of an optional issue report.
pub open spec fn opt_issue_view(r: Option<IssueReport>) -> Option<IssueReportView> {
    match r {
        Some(i) => Some(i@),
        None => None,
    }
}

impl TestResult {
    /// A pass of test `name`.
    pub fn pass(name: &str) -> (r: Self)
        ensures
            r.name@ == name@,
            r.status == TestStatus::Passed,
            r.message is None,
            r.duration_ms == 0,
            r.issue_to_report is None,
    {
        TestResult { name: owned(name), status: TestStatus::Passed, message: None, duration_ms: 0, issue_to_report: None }
    }

    /// A pass of test `name` with a message.
    pub fn pass_with_message(name: &str, message: &str) -> (r: Self)
        ensures
            r.name@ == name@,
            r.status == TestStatus::Passed,
            opt_view(r.message) == Some(message@),
            r.duration_ms == 0,
            r.issue_to_report is None,
    {
        TestResult {
            name: owned(name),
            status: TestStatus::Passed,
            message: Some(owned(message)),
            duration_ms: 0,
            issue_to_report: None,
        }
    }

    /// A failure of test `name`, with the issue to file.
    pub fn fail(name: &str, message: &str, issue: IssueReport) -> (r: Self)
        ensures
            r.name@ == name@,
            r.status == TestStatus::Failed,
            opt_view(r.message) == Some(message@),
            r.duration_ms == 0,
            opt_issue_view(r.issue_to_report) == Some(issue@),
    {
        TestResult {
            name: owned(name),
            status: TestStatus::Failed,
            message: Some(owned(message)),
            duration_ms: 0,
            issue_to_report: Some(issue),
        }
    }

    /// A warning from test `name`.
    pub fn warn(name: &str, message: &str) -> (r: Self)
        ensures
            r.name@ == name@,
            r.status == TestStatus::Warning,
            opt_view(r.message) == Some(message@),
            r.duration_ms == 0,
            r.issue_to_report is None,
    {
        TestResult {
            name: owned(name),
            status: TestStatus::Warning,
            message: Some(owned(message)),
            duration_ms: 0,
            issue_to_report: None,
        }
    }

    /// Test `name` skipped, for `reason`.
    pub fn skip(name: &str, reason: &str) -> (r: Self)
        ensures
            r.name@ == name@,
            r.status == TestStatus::Skipped,
            opt_view(r.message) == Some(reason@),
            r.duration_ms == 0,
            r.issue_to_report is None,
    {
        TestResult {
            name: owned(name),
            status: TestStatus::Skipped,
            message: Some(owned(reason)),
            duration_ms: 0,
            issue_to_report: None,
        }
    }

    /// The same result with duration `duration_ms`.
    pub fn with_duration(self, duration_ms: u64) -> (r: Self)
        ensures
            r.name@ == self.name@,
            r.status == self.status,
            opt_view(r.message) == opt_view(self.message),
            r.duration_ms == duration_ms,
            opt_issue_view(r.issue_to_report) == opt_issue_view(self.issue_to_report),
    {
        let mut r = self;
        r.duration_ms = duration_ms;
        r
    }
}

/// Settings of a verification run.
pub struct VerificationConfig {
    /// Whether to verify saorsa-gossip.
    pub test_saorsa_gossip: bool,
    /// Whether to verify ant-quic.
    pub test_ant_quic: bool,
    /// Whether to file issues for failures automatically.
    pub auto_create_issues: bool,
    /// Time limit of one test, in milliseconds.
    pub test_timeout_ms: u64,
    /// Nodes in cluster tests.
    pub cluster_size: usize,
    /// Whether to run stress tests.
    pub include_stress_tests: bool,
}

impl Default for VerificationConfig {
    fn default() -> (c: Self)
        ensures
            c.test_saorsa_gossip,
            c.test_ant_quic,
            !c.auto_create_issues,
            c.test_timeout_ms == 30_000,
            c.cluster_size == 5,
            !c.include_stress_tests,
    {
        VerificationConfig {
            test_saorsa_gossip: true,
            test_ant_quic: true,
            auto_create_issues: false,
            test_timeout_ms: 30_000,
            cluster_size: 5,
            include_stress_tests: false,
        }
    }
}

impl VerificationConfig {
    /// Settings for continuous integration: quicker and less thorough.
    pub fn ci() -> (c: Self)
        ensures
            c.test_saorsa_gossip,
            c.test_ant_quic,
            !c.auto_create_issues,
            c.test_timeout_ms == 10_000,
            c.cluster_size == 3,
            !c.include_stress_tests,
    {
        VerificationConfig {
            test_saorsa_gossip: true,
            test_ant_quic: true,
            auto_create_issues: false,
            test_timeout_ms: 10_000,
            cluster_size: 3,
            include_stress_tests: false,
        }
    }

    /// Settings for production: thorough, filing issues.
    pub fn production() -> (c: Self)
        ensures
            c.test_saorsa_gossip,
            c.test_ant_quic,
            c.auto_create_issues,
            c.test_timeout_ms == 60_000,
            c.cluster_size == 10,
            c.include_stress_tests,
    {
        VerificationConfig {
            test_saorsa_gossip: true,
            test_ant_quic: true,
            auto_create_issues: true,
            test_timeout_ms: 60_000,
            cluster_size: 10,
            include_stress_tests: true,
        }
    }
}

/// Result of verifying one library.
pub struct LibraryVerificationResult {
    /// Library name.
    pub library: String,
    /// Library version.
    pub version: String,
    /// Tests run.
    pub tests_run: usize,
    /// Tests passed.
    pub tests_passed: usize,
    /// Tests failed.
    pub tests_failed: usize,
    /// Tests that warned.
    pub tests_warned: usize,
    /// Tests skipped.
    pub tests_skipped: usize,
    /// Issues to file.
    pub issues_to_report: Vec<IssueReport>,
    /// When the run was made, in milliseconds since the Unix epoch.
    pub verified_at_ms: i64,
    /// Duration of the run, in milliseconds.
    pub duration_ms: u64,
}

/// Views of a sequence of issue reports.
pub open spec fn issue_views(s: Seq<IssueReport>) -> Seq<IssueReportView> {
    s.map_values(|i: IssueReport| i@)
}

impl LibraryVerificationResult {
    /// Every test run is counted under exactly one outcome.
    pub open spec fn balanced(&self) -> bool {
        self.tests_run == self.tests_passed + self.tests_failed + self.tests_warned + self.tests_skipped
    }

    /// An empty result for `library` at `version`, made now.
    pub fn new(library: &str, version: &str) -> (r: Self)
        ensures
            r.library@ == library@,
            r.version@ == version@,
            r.tests_run == 0,
            r.tests_passed == 0,
            r.tests_failed == 0,
            r.tests_warned == 0,
            r.tests_skipped == 0,
            r.issues_to_report@.len() == 0,
            r.duration_ms == 0,
            r.balanced(),
    {
        LibraryVerificationResult {
            library: owned(library),
            version: owned(version),
            tests_run: 0,
            tests_passed: 0,
            tests_failed: 0,
            tests_warned: 0,
            tests_skipped: 0,
            issues_to_report: Vec::new(),
            verified_at_ms: utc_now_ms(),
            duration_ms: 0,
        }
    }

    /// Whether tests were run and none failed.
    pub fn all_passed(&self) -> (r: bool)
        ensures
            r == (self.tests_failed == 0 && self.tests_run > 0),
    {
        self.tests_failed == 0 && self.tests_run > 0
    }

    /// Counts `result` under its outcome; a failure's issue joins the issues
    /// to file.
    pub fn add_result(&mut self, result: &TestResult)
        requires
            old(self).tests_run < usize::MAX,
            result.status == TestStatus::Passed ==> old(self).tests_passed < usize::MAX,
            result.status == TestStatus::Failed ==> old(self).tests_failed < usize::MAX,
            result.status == TestStatus::Warning ==> old(self).tests_warned < usize::MAX,
            result.status == TestStatus::Skipped ==> old(self).tests_skipped < usize::MAX,
        ensures
            final(self).library@ == old(self).library@,
            final(self).version@ == old(self).version@,
            final(self).verified_at_ms == old(self).verified_at_ms,
            final(self).duration_ms == old(self).duration_ms,
            final(self).tests_run == old(self).tests_run + 1,
            final(self).tests_passed == old(self).tests_passed + if result.status == TestStatus::Passed { 1int } else { 0int },
            final(self).tests_failed == old(self).tests_failed + if result.status == TestStatus::Failed { 1int } else { 0int },
            final(self).tests_warned == old(self).tests_warned + if result.status == TestStatus::Warning { 1int } else { 0int },
            final(self).tests_skipped == old(self).tests_skipped + if result.status == TestStatus::Skipped { 1int } else { 0int },
            issue_views(final(self).issues_to_report@) == if result.status == TestStatus::Failed && result.issue_to_report is Some {
                issue_views(old(self).issues_to_report@).push(result.issue_to_report->0@)
            } else {
                issue_views(old(self).issues_to_report@)
            },
            old(self).balanced() ==> final(self).balanced(),
    {
        self.tests_run = self.tests_run + 1;
        match result.status {
            TestStatus::Passed => {
                self.tests_passed = self.tests_passed + 1;
            },
            TestStatus::Failed => {
                self.tests_failed = self.tests_failed + 1;
                if let Some(issue) = &result.issue_to_report {
                    let ghost before = self.issues_to_report@;
                    self.issues_to_report.push(issue.duplicate());
                    assert(issue_views(self.issues_to_report@) =~= issue_views(before).push(issue@));
                }
            },
            TestStatus::Warning => {
                self.tests_warned = self.tests_warned + 1;
            },
            TestStatus::Skipped => {
                self.tests_skipped = self.tests_skipped + 1;
            },
        }
    }
}


/// A library verified with no test failing, warning or skipped: `tests`
/// tests run and passed, nothing to file.
pub open spec fn clean_run(r: LibraryVerificationResult, library: Seq<char>, version: Seq<char>, tests: nat) -> bool {
    &&& r.library@ == library
    &&& r.version@ == version
    &&& r.tests_run == tests
    &&& r.tests_passed == tests
    &&& r.tests_failed == 0
    &&& r.tests_warned == 0
    &&& r.tests_skipped == 0
    &&& r.issues_to_report@.len() == 0
}

/// Verifies the libraries that `config` selects, saorsa-gossip first, then
/// ant-quic, with issues made in environment `env`.
pub fn verify_all_libraries(config: &VerificationConfig, env: &EnvironmentInfo) -> (r: Vec<LibraryVerificationResult>)
    requires
        config.test_saorsa_gossip ==> config.cluster_size >= 1,
    ensures
        r@.len() == (if config.test_saorsa_gossip { 1int } else { 0int }) + (if config.test_ant_quic { 1int } else { 0int }),
        config.test_saorsa_gossip ==> clean_run(r@[0], "saorsa-gossip"@, "0.1.22"@, 12),
        config.test_ant_quic ==> clean_run(r@[r@.len() - 1], "ant-quic"@, "0.3.0"@, 12),
{
    let mut results: Vec<LibraryVerificationResult> = Vec::new();
    if config.test_saorsa_gossip {
        results.push(verify_saorsa_gossip(config, env));
    }
    if config.test_ant_quic {
        results.push(verify_ant_quic(config, env));
    }
    results
}

// ---------------------------------------------------------------------------
// Summary report
// ---------------------------------------------------------------------------

/// The pass rate of `passed` tests out of `run`, as a percentage with one
/// decimal: `0.0` when nothing ran.
pub open spec fn pass_rate_text(passed: nat, run: nat) -> Seq<char> {
    if run == 0 { "0.0"@ } else { percent_tenths_text(passed, run) }
}

/// The lines of a summary on one library's result.
pub open spec fn library_lines(r: LibraryVerificationResult) -> Seq<Seq<char>> {
    seq![
        (if r.tests_failed == 0 && r.tests_run > 0 { "✓"@ } else { "✗"@ }) + " "@ + r.library@ + " v"@ + r.version@,
        "  Tests: "@ + decimal(r.tests_passed as nat) + "/"@ + decimal(r.tests_run as nat) + " passed ("@
            + pass_rate_text(r.tests_passed as nat, r.tests_run as nat) + "%)"@,
        "  Issues: "@ + decimal(r.issues_to_report@.len()),
    ]
}

/// The lines listing issues `issues` found on `library`.
pub open spec fn issue_lines(library: Seq<char>, issues: Seq<IssueReportView>) -> Seq<Seq<char>>
    decreases issues.len(),
{
    if issues.len() == 0 {
        Seq::empty()
    } else {
        let i = issues.last();
        issue_lines(library, issues.drop_last()) + seq![
            "  ["@ + library + "/"@ + i.test_name + "] "@ + i.title,
            "    Labels: "@ + joined(i.labels, ", "@),
        ]
    }
}

/// The lines on each of `rs`, one library after another.
pub open spec fn results_lines(rs: Seq<LibraryVerificationResult>) -> Seq<Seq<char>>
    decreases rs.len(),
{
    if rs.len() == 0 { Seq::empty() } else { results_lines(rs.drop_last()) + library_lines(rs.last()) }
}

/// The lines on the issues of each of `rs`, one library after another.
pub open spec fn results_issue_lines(rs: Seq<LibraryVerificationResult>) -> Seq<Seq<char>>
    decreases rs.len(),
{
    if rs.len() == 0 {
        Seq::empty()
    } else {
        results_issue_lines(rs.drop_last()) + issue_lines(rs.last().library@, issue_views(rs.last().issues_to_report@))
    }
}

/// The sum of `f` over `rs`.
pub open spec fn total_of(rs: Seq<LibraryVerificationResult>, f: spec_fn(LibraryVerificationResult) -> nat) -> nat
    decreases rs.len(),
{
    if rs.len() == 0 { 0 } else { total_of(rs.drop_last(), f) + f(rs.last()) }
}

/// Tests run by a result.
pub open spec fn run_of() -> spec_fn(LibraryVerificationResult) -> nat {
    |r: LibraryVerificationResult| r.tests_run as nat
}

/// Tests passed by a result.
pub open spec fn passed_of() -> spec_fn(LibraryVerificationResult) -> nat {
    |r: LibraryVerificationResult| r.tests_passed as nat
}

/// Tests failed by a result.
pub open spec fn failed_of() -> spec_fn(LibraryVerificationResult) -> nat {
    |r: LibraryVerificationResult| r.tests_failed as nat
}

/// Issues to file of a result.
pub open spec fn issues_of() -> spec_fn(LibraryVerificationResult) -> nat {
    |r: LibraryVerificationResult| r.issues_to_report@.len()
}

/// The lines of the summary report on results `rs`: each library with its
/// pass rate, the issues to file when there are any, and the totals.
pub open spec fn summary_lines(rs: Seq<LibraryVerificationResult>) -> Seq<Seq<char>> {
    seq![""@, "=== Library Verification Report ==="@, ""@]
        + results_lines(rs)
        + (if total_of(rs, issues_of()) > 0 {
            seq![""@, "=== Issues to Report ==="@, ""@] + results_issue_lines(rs)
        } else {
            Seq::empty()
        })
        + seq![
            ""@,
            "=== Summary ==="@,
            ""@,
            "Libraries verified: "@ + decimal(rs.len()),
            "Total tests: "@ + decimal(total_of(rs, run_of())),
            "Passed: "@ + decimal(total_of(rs, passed_of())),
            "Failed: "@ + decimal(total_of(rs, failed_of())),
            "Issues to create: "@ + decimal(total_of(rs, issues_of())),
        ]
}

/// Writes the lines of the summary on one result.
fn write_library(out: &mut String, r: &LibraryVerificationResult, Ghost(lines): Ghost<Seq<Seq<char>>>) -> (g: Ghost<Seq<Seq<char>>>)
    requires
        old(out)@ == lines_text(lines),
    ensures
        g@ == lines + library_lines(*r),
        final(out)@ == lines_text(g@),
{
    let ghost mut cur = lines;
    let mark = if r.tests_failed == 0 && r.tests_run > 0 { "✓" } else { "✗" };
    let l1 = concat3(concat3(mark, " ", r.library.as_str()).as_str(), " v", r.version.as_str());
    write_line(out, l1.as_str(), Ghost(cur));
    proof { cur = cur.push(l1@); }
    assert(r.tests_passed as u64 == r.tests_passed && r.tests_run as u64 == r.tests_run);
    let rate = if r.tests_run == 0 { owned("0.0") } else { percent_tenths(r.tests_passed as u64, r.tests_run as u64) };
    let counts = concat3(usize_to_text(r.tests_passed).as_str(), "/", usize_to_text(r.tests_run).as_str());
    let l2 = concat3(concat3("  Tests: ", counts.as_str(), " passed (").as_str(), rate.as_str(), "%)");
    write_line(out, l2.as_str(), Ghost(cur));
    proof { cur = cur.push(l2@); }
    let l3 = concat2("  Issues: ", usize_to_text(r.issues_to_report.len()).as_str());
    write_line(out, l3.as_str(), Ghost(cur));
    proof {
        cur = cur.push(l3@);
        assert(rate@ == pass_rate_text(r.tests_passed as nat, r.tests_run as nat));
        assert(l2@ == "  Tests: "@ + decimal(r.tests_passed as nat) + "/"@ + decimal(r.tests_run as nat) + " passed ("@
            + pass_rate_text(r.tests_passed as nat, r.tests_run as nat) + "%)"@);
        assert(l1@ == (if r.tests_failed == 0 && r.tests_run > 0 { "✓"@ } else { "✗"@ }) + " "@ + r.library@ + " v"@ + r.version@);
        assert(cur =~= lines + library_lines(*r));
    }
    Ghost(cur)
}

/// Writes the lines listing the issues of one result.
fn write_issues(out: &mut String, r: &LibraryVerificationResult, Ghost(lines): Ghost<Seq<Seq<char>>>) -> (g: Ghost<Seq<Seq<char>>>)
    requires
        old(out)@ == lines_text(lines),
    ensures
        g@ == lines + issue_lines(r.library@, issue_views(r.issues_to_report@)),
        final(out)@ == lines_text(g@),
{
    let ghost iv = issue_views(r.issues_to_report@);
    let ghost mut cur = lines;
    let mut i: usize = 0;
    assert(iv.take(0) =~= Seq::<IssueReportView>::empty());
    while i < r.issues_to_report.len()
        invariant
            0 <= i <= r.issues_to_report@.len(),
            iv == issue_views(r.issues_to_report@),
            cur == lines + issue_lines(r.library@, iv.take(i as int)),
            out@ == lines_text(cur),
        decreases r.issues_to_report@.len() - i,
    {
        let issue = &r.issues_to_report[i];
        let a1 = concat3("  [", r.library.as_str(), "/");
        let a2 = concat3(a1.as_str(), issue.test_name.as_str(), "] ");
        let l1 = concat2(a2.as_str(), issue.title.as_str());
        write_line(out, l1.as_str(), Ghost(cur));
        proof { cur = cur.push(l1@); }
        let labels = join(issue.labels.as_slice(), ", ");
        let l2 = concat2("    Labels: ", labels.as_str());
        write_line(out, l2.as_str(), Ghost(cur));
        proof {
            cur = cur.push(l2@);
            assert(iv.take(i + 1).drop_last() =~= iv.take(i as int));
            assert(iv.take(i + 1).last() == issue@);
            assert(cur =~= lines + issue_lines(r.library@, iv.take(i + 1)));
        }
        i = i + 1;
    }
    assert(iv.take(r.issues_to_report@.len() as int) =~= iv);
    Ghost(cur)
}

/// Totals over results: tests run, passed and failed, and issues to file.
struct Totals {
    run: u128,
    passed: u128,
    failed: u128,
    issues: u128,
}

/// Writes the lines on each of `results` and sums their figures.
fn write_libraries(out: &mut String, results: &[LibraryVerificationResult], Ghost(lines): Ghost<Seq<Seq<char>>>) -> (r: (Ghost<Seq<Seq<char>>>, Totals))
    requires
        old(out)@ == lines_text(lines),
    ensures
        r.0@ == lines + results_lines(results@),
        final(out)@ == lines_text(r.0@),
        r.1.run == total_of(results@, run_of()),
        r.1.passed == total_of(results@, passed_of()),
        r.1.failed == total_of(results@, failed_of()),
        r.1.issues == total_of(results@, issues_of()),
{
    let ghost rs = results@;
    let ghost mut cur = lines;
    let mut run: u128 = 0;
    let mut passed: u128 = 0;
    let mut failed: u128 = 0;
    let mut issues: u128 = 0;
    let mut i: usize = 0;
    assert(rs.take(0) =~= Seq::<LibraryVerificationResult>::empty());
    while i < results.len()
        invariant
            rs == results@,
            0 <= i <= rs.len(),
            cur == lines + results_lines(rs.take(i as int)),
            out@ == lines_text(cur),
            run == total_of(rs.take(i as int), run_of()),
            passed == total_of(rs.take(i as int), passed_of()),
            failed == total_of(rs.take(i as int), failed_of()),
            issues == total_of(rs.take(i as int), issues_of()),
            i <= usize::MAX,
            run <= i * 0x1_0000_0000_0000_0000,
            passed <= i * 0x1_0000_0000_0000_0000,
            failed <= i * 0x1_0000_0000_0000_0000,
            issues <= i * 0x1_0000_0000_0000_0000,
        decreases rs.len() - i,
    {
        let r = &results[i];
        let g = write_library(out, r, Ghost(cur));
        let n_issues = r.issues_to_report.len();
        proof {
            assert(rs.take(i + 1).drop_last() =~= rs.take(i as int));
            assert(rs.take(i + 1).last() == *r);
            cur = g@;
        }
        run = run + r.tests_run as u128;
        passed = passed + r.tests_passed as u128;
        failed = failed + r.tests_failed as u128;
        issues = issues + n_issues as u128;
        i = i + 1;
    }
    proof { assert(rs.take(rs.len() as int) =~= rs); }
    (Ghost(cur), Totals { run, passed, failed, issues })
}

/// Writes the section on the issues of `results`.
fn write_issue_section(out: &mut String, results: &[LibraryVerificationResult], Ghost(lines): Ghost<Seq<Seq<char>>>) -> (r: Ghost<Seq<Seq<char>>>)
    requires
        old(out)@ == lines_text(lines),
    ensures
        r@ == lines + seq![""@, "=== Issues to Report ==="@, ""@] + results_issue_lines(results@),
        final(out)@ == lines_text(r@),
{
    let ghost rs = results@;
    let ghost mut cur = lines;
    write_line(out, "", Ghost(cur));
    proof { cur = cur.push(""@); }
    write_line(out, "=== Issues to Report ===", Ghost(cur));
    proof { cur = cur.push("=== Issues to Report ==="@); }
    write_line(out, "", Ghost(cur));
    proof { cur = cur.push(""@); }
    let ghost mid = cur;
    let mut j: usize = 0;
    assert(rs.take(0) =~= Seq::<LibraryVerificationResult>::empty());
    while j < results.len()
        invariant
            rs == results@,
            0 <= j <= rs.len(),
            cur == mid + results_issue_lines(rs.take(j as int)),
            out@ == lines_text(cur),
        decreases rs.len() - j,
    {
        let g = write_issues(out, &results[j], Ghost(cur));
        proof {
            assert(rs.take(j + 1).drop_last() =~= rs.take(j as int));
            cur = g@;
        }
        j = j + 1;
    }
    proof {
        assert(rs.take(rs.len() as int) =~= rs);
        assert(cur =~= lines + seq![""@, "=== Issues to Report ==="@, ""@] + results_issue_lines(rs));
    }
    Ghost(cur)
}

/// Writes the totals section.
fn write_totals(out: &mut String, libraries: usize, t: &Totals, Ghost(lines): Ghost<Seq<Seq<char>>>) -> (r: Ghost<Seq<Seq<char>>>)
    requires
        old(out)@ == lines_text(lines),
    ensures
        r@ == lines + seq![
            ""@,
            "=== Summary ==="@,
            ""@,
            "Libraries verified: "@ + decimal(libraries as nat),
            "Total tests: "@ + decimal(t.run as nat),
            "Passed: "@ + decimal(t.passed as nat),
            "Failed: "@ + decimal(t.failed as nat),
            "Issues to create: "@ + decimal(t.issues as nat),
        ],
        final(out)@ == lines_text(r@),
{
    let ghost mut cur = lines;
    write_line(out, "", Ghost(cur));
    proof { cur = cur.push(""@); }
    write_line(out, "=== Summary ===", Ghost(cur));
    proof { cur = cur.push("=== Summary ==="@); }
    write_line(out, "", Ghost(cur));
    proof { cur = cur.push(""@); }
    let t1 = concat2("Libraries verified: ", usize_to_text(libraries).as_str());
    write_line(out, t1.as_str(), Ghost(cur));
    proof { cur = cur.push(t1@); }
    let t2 = concat2("Total tests: ", u128_to_text(t.run).as_str());
    write_line(out, t2.as_str(), Ghost(cur));
    proof { cur = cur.push(t2@); }
    let t3 = concat2("Passed: ", u128_to_text(t.passed).as_str());
    write_line(out, t3.as_str(), Ghost(cur));
    proof { cur = cur.push(t3@); }
    let t4 = concat2("Failed: ", u128_to_text(t.failed).as_str());
    write_line(out, t4.as_str(), Ghost(cur));
    proof { cur = cur.push(t4@); }
    let t5 = concat2("Issues to create: ", u128_to_text(t.issues).as_str());
    write_line(out, t5.as_str(), Ghost(cur));
    proof {
        cur = cur.push(t5@);
        assert(cur =~= lines + seq![
            ""@,
            "=== Summary ==="@,
            ""@,
            "Libraries verified: "@ + decimal(libraries as nat),
            "Total tests: "@ + decimal(t.run as nat),
            "Passed: "@ + decimal(t.passed as nat),
            "Failed: "@ + decimal(t.failed as nat),
            "Issues to create: "@ + decimal(t.issues as nat),
        ]);
    }
    Ghost(cur)
}

/// The summary report on results `results`: each library with its tests
/// passed, its pass rate to one decimal and its issues; the issues to file
/// when there are any; then the totals.
pub fn summary_text(results: &[LibraryVerificationResult]) -> (s: String)
    ensures
        s@ == lines_text(summary_lines(results@)),
{
    let mut out = String::new();
    let ghost mut lines: Seq<Seq<char>> = Seq::empty();
    assert(out@ =~= lines_text(lines));
    write_line(&mut out, "", Ghost(lines));
    proof { lines = lines.push(""@); }
    write_line(&mut out, "=== Library Verification Report ===", Ghost(lines));
    proof { lines = lines.push("=== Library Verification Report ==="@); }
    write_line(&mut out, "", Ghost(lines));
    proof { lines = lines.push(""@); }
    let (g, totals) = write_libraries(&mut out, results, Ghost(lines));
    let ghost after_libs = g@;
    let g2 = if totals.issues > 0 {
        write_issue_section(&mut out, results, Ghost(g@))
    } else {
        Ghost(g@)
    };
    let g3 = write_totals(&mut out, results.len(), &totals, Ghost(g2@));
    proof {
        assert(g3@ =~= summary_lines(results@));
    }
    out
}

} // verus!
