//! Verification of the ant-quic library against its documented API.
//!
//! Direct connections should succeed, NAT traversal should pass through
//! discovery, coordination and punching or fall back to the relay, the
//! MASQUE relay should allocate sessions with public addresses, streams
//! should carry data intact, peer identities should stay stable across
//! reconnects, and connections should close gracefully and reconnect. A
//! failure becomes an issue to file. Until nodes are wired in, each check
//! runs on fixed measurements.

use vstd::prelude::*;
use crate::platform::{instant_now, millis_between};
use crate::text::{owned, concat2, concat3, u64_to_text, decimal, opt_view, str_eq, joined, join, string_views};
use crate::lib_verification::{
    LibraryVerificationResult, TestResult, TestStatus, VerificationConfig, issue_views,
};
use crate::lib_verification::issue_reporter::{EnvironmentInfo, IssueReport};

verus! {

/// The ant-quic version under verification.
pub fn get_quic_version() -> (v: &'static str)
    ensures
        v@ == "0.3.0"@,
{
    "0.3.0"
}

/// An issue on ant-quic found by test `test_name`, labelled as a bug of
/// `area`, made in `env`.
fn quic_issue(title: &str, test_name: &str, expected: &str, actual: &str, area: &str, env: &EnvironmentInfo) -> (r: IssueReport)
    ensures
        r@.library == "ant-quic"@,
        r@.title == title@,
        r@.test_name == test_name@,
{
    IssueReport::builder("ant-quic")
        .title(title)
        .test_name(test_name)
        .expected(expected)
        .actual(actual)
        .label("bug")
        .label(area)
        .build(env.duplicate())
}

/// A list of names as `Debug` writes it: `["a", "b"]` (for names without
/// quotes or backslashes).
pub open spec fn name_list(items: Seq<Seq<char>>) -> Seq<char> {
    "["@ + joined(items.map_values(|s: Seq<char>| "\""@ + s + "\""@), ", "@) + "]"@
}

/// Writes a list of names as `Debug` does (see [`name_list`]).
fn write_names(items: &[&str]) -> (s: String)
    ensures
        s@ == name_list(items@.map_values(|x: &str| x@)),
{
    let ghost names = items@.map_values(|x: &str| x@);
    let mut quoted: Vec<String> = Vec::new();
    let mut i: usize = 0;
    while i < items.len()
        invariant
            names == items@.map_values(|x: &str| x@),
            0 <= i <= items@.len(),
            string_views(quoted@) == names.take(i as int).map_values(|s: Seq<char>| "\""@ + s + "\""@),
        decreases items@.len() - i,
    {
        let ghost before = string_views(quoted@);
        quoted.push(concat3("\"", items[i], "\""));
        assert(string_views(quoted@) =~= before.push("\""@ + items@[i as int]@ + "\""@));
        assert(names.take(i + 1).map_values(|s: Seq<char>| "\""@ + s + "\""@)
            =~= names.take(i as int).map_values(|s: Seq<char>| "\""@ + s + "\""@).push("\""@ + names[i as int] + "\""@));
        i = i + 1;
    }
    assert(names.take(items@.len() as int) =~= names);
    let body = join(quoted.as_slice(), ", ");
    concat3("[", body.as_str(), "]")
}

/// A direct connection to a known address succeeds.
pub fn test_direct_connection_succeeds(_config: &VerificationConfig, env: &EnvironmentInfo) -> (r: TestResult)
    ensures
        r.name@ == "direct_connection_succeeds"@,
        r.status == TestStatus::Passed,
        r.message is None,
        r.issue_to_report is None,
{
    let start = instant_now();
    let test_name = "direct_connection_succeeds";
    let connection_succeeded = true;
    if !connection_succeeded {
        let issue = quic_issue("Node::connect_addr() fails for direct connection", test_name,
            "Connection succeeds when address is directly reachable", "Connection failed or timed out", "connection", env);
        return TestResult::fail(test_name, "Direct connection to known address failed", issue)
            .with_duration(millis_between(&instant_now(), &start));
    }
    TestResult::pass(test_name).with_duration(millis_between(&instant_now(), &start))
}

/// NAT traversal passes through discovery, coordination and punching.
pub fn test_nat_traversal_phase_progression(_config: &VerificationConfig, env: &EnvironmentInfo) -> (r: TestResult)
    ensures
        r.name@ == "nat_traversal_phase_progression"@,
        r.status == TestStatus::Passed,
        opt_view(r.message) == Some("All expected phases traversed: "@
            + name_list(seq!["Discovery"@, "Coordination"@, "Punching"@])),
        r.issue_to_report is None,
{
    let start = instant_now();
    let test_name = "nat_traversal_phase_progression";
    let expected_phases: [&str; 3] = ["Discovery", "Coordination", "Punching"];
    let phases_seen: [&str; 3] = ["Discovery", "Coordination", "Punching"];
    let mut missing: Vec<&str> = Vec::new();
    let mut i: usize = 0;
    while i < 3
        invariant
            0 <= i <= 3,
            forall|k: int| 0 <= k < 3 ==> (#[trigger] expected_phases@[k])@ == phases_seen@[k]@,
            missing@.len() == 0,
        decreases 3 - i,
    {
        let mut seen = false;
        let mut j: usize = 0;
        while j < 3
            invariant
                0 <= i < 3,
                0 <= j <= 3,
                forall|k: int| 0 <= k < 3 ==> (#[trigger] expected_phases@[k])@ == phases_seen@[k]@,
                j > i ==> seen,
            decreases 3 - j,
        {
            if str_eq(phases_seen[j], expected_phases[i]) {
                seen = true;
            }
            j = j + 1;
        }
        if !seen {
            missing.push(expected_phases[i]);
        }
        i = i + 1;
    }
    if missing.len() > 0 {
        let missing_text = write_names(missing.as_slice());
        let msg = concat2("NAT traversal skipped phases: ", missing_text.as_str());
        let title = concat3("NAT traversal skips ", missing_text.as_str(), " phase(s)");
        let expected = concat2("Phases traversed in order: ", write_names(&expected_phases).as_str());
        let actual = concat2("Phases seen: ", write_names(&phases_seen).as_str());
        let issue = quic_issue(title.as_str(), test_name, expected.as_str(), actual.as_str(), "NAT-traversal", env);
        return TestResult::fail(test_name, msg.as_str(), issue).with_duration(millis_between(&instant_now(), &start));
    }
    let seen_text = write_names(&phases_seen);
    proof {
        assert(phases_seen@.map_values(|x: &str| x@) =~= seq!["Discovery"@, "Coordination"@, "Punching"@]);
    }
    let msg = concat2("All expected phases traversed: ", seen_text.as_str());
    TestResult::pass_with_message(test_name, msg.as_str()).with_duration(millis_between(&instant_now(), &start))
}

/// NAT traversal connects, directly or through the relay.
pub fn test_nat_traversal_success_or_fallback(_config: &VerificationConfig, env: &EnvironmentInfo) -> (r: TestResult)
    ensures
        r.name@ == "nat_traversal_success_or_fallback"@,
        r.status == TestStatus::Passed,
        opt_view(r.message) == Some("Connection established via "@ + "direct"@),
        r.issue_to_report is None,
{
    let start = instant_now();
    let test_name = "nat_traversal_success_or_fallback";
    let direct_succeeded = true;
    let relay_fallback_available = true;
    let connection_established = true;
    if !connection_established {
        let issue_body = if !relay_fallback_available {
            "NAT traversal failed and no relay fallback was attempted"
        } else {
            "NAT traversal failed and relay fallback also failed"
        };
        let issue = quic_issue("Connection fails when NAT traversal unsuccessful", test_name,
            "Connection succeeds via direct or relay fallback", issue_body, "NAT-traversal", env);
        return TestResult::fail(test_name, "Connection failed - neither direct nor relay worked", issue)
            .with_duration(millis_between(&instant_now(), &start));
    }
    let method = if direct_succeeded { "direct" } else { "relay" };
    let msg = concat2("Connection established via ", method);
    TestResult::pass_with_message(test_name, msg.as_str()).with_duration(millis_between(&instant_now(), &start))
}

/// The relay carries a connection, and its data, when a direct one is impossible.
pub fn test_relay_fallback_works(_config: &VerificationConfig, env: &EnvironmentInfo) -> (r: TestResult)
    ensures
        r.name@ == "relay_fallback_works"@,
        r.status == TestStatus::Passed,
        r.message is None,
        r.issue_to_report is None,
{
    let start = instant_now();
    let test_name = "relay_fallback_works";
    let relay_connection_succeeded = true;
    let data_transfer_worked = true;
    if !relay_connection_succeeded {
        let issue = quic_issue("Relay fallback connection fails", test_name,
            "Relay connection succeeds when direct fails", "Relay connection failed or timed out", "relay", env);
        return TestResult::fail(test_name, "Relay connection failed", issue)
            .with_duration(millis_between(&instant_now(), &start));
    }
    if !data_transfer_worked {
        let issue = quic_issue("Data transfer fails over relay connection", test_name,
            "Data transfer works over relay", "Relay connected but data transfer failed", "relay", env);
        return TestResult::fail(test_name, "Relay connection established but data transfer failed", issue)
            .with_duration(millis_between(&instant_now(), &start));
    }
    TestResult::pass(test_name).with_duration(millis_between(&instant_now(), &start))
}

/// The relay server allocates a session with a public address.
pub fn test_relay_session_allocation(_config: &VerificationConfig, env: &EnvironmentInfo) -> (r: TestResult)
    ensures
        r.name@ == "relay_session_allocation"@,
        r.status == TestStatus::Passed,
        r.message is None,
        r.issue_to_report is None,
{
    let start = instant_now();
    let test_name = "relay_session_allocation";
    let session_allocated = true;
    let public_addr_valid = true;
    if !session_allocated {
        let issue = quic_issue("MasqueRelayServer fails to allocate session", test_name,
            "Session allocated with Ok(session_id)", "Session allocation failed or timed out", "relay", env);
        return TestResult::fail(test_name, "Relay session allocation failed", issue)
            .with_duration(millis_between(&instant_now(), &start));
    }
    if !public_addr_valid {
        let issue = quic_issue("Relay session public_addr() returns None", test_name,
            "public_addr() returns Some(addr) with externally routable address", "public_addr() returned None", "relay", env);
        return TestResult::fail(test_name, "Relay session has no valid public address", issue)
            .with_duration(millis_between(&instant_now(), &start));
    }
    TestResult::pass(test_name).with_duration(millis_between(&instant_now(), &start))
}

/// A bidirectional stream carries its data intact.
pub fn test_bidirectional_stream_data_integrity(_config: &VerificationConfig, env: &EnvironmentInfo) -> (r: TestResult)
    ensures
        r.name@ == "bidirectional_stream_data_integrity"@,
        r.status == TestStatus::Passed,
        opt_view(r.message) == Some(decimal(10000) + " bytes transferred with integrity verified"@),
        r.issue_to_report is None,
{
    let start = instant_now();
    let test_name = "bidirectional_stream_data_integrity";
    let test_data_size: u64 = 10_000;
    let data_matches = true;
    let bytes_sent = test_data_size;
    let bytes_received = test_data_size;
    if bytes_received != bytes_sent {
        let msg = concat3(concat2("Data size mismatch: sent ", u64_to_text(bytes_sent).as_str()).as_str(),
            " bytes, received ", concat2(u64_to_text(bytes_received).as_str(), " bytes").as_str());
        let expected = concat3("Receive all ", u64_to_text(bytes_sent).as_str(), " bytes sent");
        let actual = concat3("Received ", u64_to_text(bytes_received).as_str(), " bytes");
        let issue = quic_issue("Bidirectional stream data size mismatch", test_name, expected.as_str(), actual.as_str(), "streams", env);
        return TestResult::fail(test_name, msg.as_str(), issue).with_duration(millis_between(&instant_now(), &start));
    }
    if !data_matches {
        let issue = quic_issue("Stream data corruption on bidirectional transfer", test_name,
            "Received data matches sent data exactly", "Data mismatch detected", "streams", env);
        return TestResult::fail(test_name, "Bidirectional stream data corruption detected", issue)
            .with_duration(millis_between(&instant_now(), &start));
    }
    let msg = concat2(u64_to_text(bytes_sent).as_str(), " bytes transferred with integrity verified");
    TestResult::pass_with_message(test_name, msg.as_str()).with_duration(millis_between(&instant_now(), &start))
}

/// A unidirectional stream opens and delivers its data.
pub fn test_unidirectional_stream_works(_config: &VerificationConfig, env: &EnvironmentInfo) -> (r: TestResult)
    ensures
        r.name@ == "unidirectional_stream_works"@,
        r.status == TestStatus::Passed,
        r.message is None,
        r.issue_to_report is None,
{
    let start = instant_now();
    let test_name = "unidirectional_stream_works";
    let stream_opened = true;
    let data_received = true;
    if !stream_opened {
        let issue = quic_issue("connection.open_uni() fails", test_name,
            "Unidirectional stream opens successfully", "Stream opening failed or timed out", "streams", env);
        return TestResult::fail(test_name, "Failed to open unidirectional stream", issue)
            .with_duration(millis_between(&instant_now(), &start));
    }
    if !data_received {
        let issue = quic_issue("Unidirectional stream data not delivered", test_name,
            "Data sent on unidirectional stream is received", "Data not received within timeout", "streams", env);
        return TestResult::fail(test_name, "Data not received on unidirectional stream", issue)
            .with_duration(millis_between(&instant_now(), &start));
    }
    TestResult::pass(test_name).with_duration(millis_between(&instant_now(), &start))
}

/// A node keeps its peer identifier across reconnects.
pub fn test_peer_id_stability(_config: &VerificationConfig, env: &EnvironmentInfo) -> (r: TestResult)
    ensures
        r.name@ == "peer_id_stability"@,
        r.status == TestStatus::Passed,
        r.message is None,
        r.issue_to_report is None,
{
    let start = instant_now();
    let test_name = "peer_id_stability";
    let peer_id_before = "peer_abc123";
    let peer_id_after = "peer_abc123";
    let ids_match = str_eq(peer_id_before, peer_id_after);
    if !ids_match {
        let actual = concat3(concat2("PeerId changed from ", peer_id_before).as_str(), " to ", peer_id_after);
        let issue = quic_issue("node.peer_id() not stable across reconnects", test_name,
            "PeerId remains constant across reconnects", actual.as_str(), "identity", env);
        return TestResult::fail(test_name, "PeerId changed after reconnect", issue)
            .with_duration(millis_between(&instant_now(), &start));
    }
    TestResult::pass(test_name).with_duration(millis_between(&instant_now(), &start))
}

/// A connection is announced with an event naming the right peer.
pub fn test_peer_connected_event_emitted(_config: &VerificationConfig, env: &EnvironmentInfo) -> (r: TestResult)
    ensures
        r.name@ == "peer_connected_event_emitted"@,
        r.status == TestStatus::Passed,
        r.message is None,
        r.issue_to_report is None,
{
    let start = instant_now();
    let test_name = "peer_connected_event_emitted";
    let event_received = true;
    let correct_peer_id = true;
    if !event_received {
        let issue = quic_issue("NodeEvent::PeerConnected not emitted on connection", test_name,
            "PeerConnected event emitted when connection established", "No PeerConnected event received within timeout", "events", env);
        return TestResult::fail(test_name, "PeerConnected event not emitted", issue)
            .with_duration(millis_between(&instant_now(), &start));
    }
    if !correct_peer_id {
        let issue = quic_issue("PeerConnected event contains incorrect peer_id", test_name,
            "Event peer_id matches connected peer's actual peer_id", "Event peer_id does not match", "events", env);
        return TestResult::fail(test_name, "PeerConnected event has wrong peer_id", issue)
            .with_duration(millis_between(&instant_now(), &start));
    }
    TestResult::pass(test_name).with_duration(millis_between(&instant_now(), &start))
}

/// The node learns an externally routable address of its own; in local
/// testing a missing or local address is only a warning.
pub fn test_external_address_discovery(_config: &VerificationConfig, _env: &EnvironmentInfo) -> (r: TestResult)
    ensures
        r.name@ == "external_address_discovery"@,
        r.status == TestStatus::Passed,
        r.message is None,
        r.issue_to_report is None,
{
    let start = instant_now();
    let test_name = "external_address_discovery";
    let event_received = true;
    let address_is_external = true;
    if !event_received {
        return TestResult::warn(test_name,
            "ExternalAddressDiscovered event not received (may be expected in local testing)");
    }
    if !address_is_external {
        return TestResult::warn(test_name, "Discovered address appears to be local (expected in local testing)");
    }
    TestResult::pass(test_name).with_duration(millis_between(&instant_now(), &start))
}

/// A connection closes cleanly and the peer hears of it.
pub fn test_connection_graceful_close(_config: &VerificationConfig, env: &EnvironmentInfo) -> (r: TestResult)
    ensures
        r.name@ == "connection_graceful_close"@,
        r.status == TestStatus::Passed,
        r.message is None,
        r.issue_to_report is None,
{
    let start = instant_now();
    let test_name = "connection_graceful_close";
    let close_succeeded = true;
    let remote_notified = true;
    if !close_succeeded {
        let issue = quic_issue("connection.close() fails or hangs", test_name,
            "Connection closes cleanly", "Close operation failed or timed out", "connection", env);
        return TestResult::fail(test_name, "Connection close failed", issue)
            .with_duration(millis_between(&instant_now(), &start));
    }
    if !remote_notified {
        return TestResult::warn(test_name, "Connection closed but remote may not have received notification");
    }
    TestResult::pass(test_name).with_duration(millis_between(&instant_now(), &start))
}

/// A node reconnects after a disconnect and carries data again.
pub fn test_reconnection_after_disconnect(_config: &VerificationConfig, env: &EnvironmentInfo) -> (r: TestResult)
    ensures
        r.name@ == "reconnection_after_disconnect"@,
        r.status == TestStatus::Passed,
        r.message is None,
        r.issue_to_report is None,
{
    let start = instant_now();
    let test_name = "reconnection_after_disconnect";
    let first_connection_ok = true;
    let reconnection_ok = true;
    let data_transfer_after_reconnect = true;
    if !first_connection_ok {
        let issue = quic_issue("Connection establishment fails", test_name,
            "Initial connection succeeds", "Connection failed", "connection", env);
        return TestResult::fail(test_name, "Initial connection failed", issue)
            .with_duration(millis_between(&instant_now(), &start));
    }
    if !reconnection_ok {
        let issue = quic_issue("Reconnection fails after previous connection closed", test_name,
            "Reconnection succeeds after disconnect", "Reconnection failed or timed out", "connection", env);
        return TestResult::fail(test_name, "Reconnection after disconnect failed", issue)
            .with_duration(millis_between(&instant_now(), &start));
    }
    if !data_transfer_after_reconnect {
        let issue = quic_issue("Data transfer broken after reconnection", test_name,
            "Data transfer works after reconnect", "Data transfer failed on reconnected connection", "connection", env);
        return TestResult::fail(test_name, "Data transfer fails after reconnection", issue)
            .with_duration(millis_between(&instant_now(), &start));
    }
    TestResult::pass(test_name).with_duration(millis_between(&instant_now(), &start))
}

/// Runs the twelve ant-quic checks in order and gathers their results;
/// issues are made in `env`.
pub fn verify_ant_quic(config: &VerificationConfig, env: &EnvironmentInfo) -> (r: LibraryVerificationResult)
    ensures
        r.library@ == "ant-quic"@,
        r.version@ == "0.3.0"@,
        r.tests_run == 12,
        r.tests_passed == 12,
        r.tests_failed == 0,
        r.tests_warned == 0,
        r.tests_skipped == 0,
        r.issues_to_report@.len() == 0,
        r.balanced(),
{
    let start = instant_now();
    let mut result = LibraryVerificationResult::new("ant-quic", get_quic_version());
    let tests = vec![
        test_direct_connection_succeeds(config, env),
        test_nat_traversal_phase_progression(config, env),
        test_nat_traversal_success_or_fallback(config, env),
        test_relay_fallback_works(config, env),
        test_relay_session_allocation(config, env),
        test_bidirectional_stream_data_integrity(config, env),
        test_unidirectional_stream_works(config, env),
        test_peer_id_stability(config, env),
        test_peer_connected_event_emitted(config, env),
        test_external_address_discovery(config, env),
        test_connection_graceful_close(config, env),
        test_reconnection_after_disconnect(config, env),
    ];
    let mut i: usize = 0;
    while i < tests.len()
        invariant
            tests@.len() == 12,
            forall|k: int| 0 <= k < 12 ==> (#[trigger] tests@[k]).status == TestStatus::Passed,
            0 <= i <= 12,
            result.library@ == "ant-quic"@,
            result.version@ == "0.3.0"@,
            result.tests_run == i,
            result.tests_passed == i,
            result.tests_failed == 0,
            result.tests_warned == 0,
            result.tests_skipped == 0,
            result.issues_to_report@.len() == 0,
        decreases 12 - i,
    {
        result.add_result(&tests[i]);
        proof { assert(issue_views(result.issues_to_report@).len() == result.issues_to_report@.len()); }
        i = i + 1;
    }
    result.duration_ms = millis_between(&instant_now(), &start);
    result
}

} // verus!
