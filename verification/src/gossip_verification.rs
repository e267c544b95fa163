//! Measurements and results of the verification of the gossip protocols
//! (HyParView membership, SWIM failure detection, Plumtree broadcast).

use vstd::prelude::*;
use crate::text::{decimal, lines_text, write_line, usize_to_text, concat2, concat3};

verus! {

/// Measured SWIM behaviour of a node.
pub struct SwimMeasurements {
    /// Indirect probes sent.
    pub ping_req_sent: u64,
    /// Indirect probes answered.
    pub ping_req_success: u64,
    /// Measured failure detection latencies, in milliseconds.
    pub detection_latencies_ms: Vec<u64>,
}

impl Default for SwimMeasurements {
    fn default() -> (m: Self)
        ensures
            m.ping_req_sent == 0,
            m.ping_req_success == 0,
            m.detection_latencies_ms@.len() == 0,
    {
        SwimMeasurements { ping_req_sent: 0, ping_req_success: 0, detection_latencies_ms: Vec::new() }
    }
}

/// Measured Plumtree behaviour of a node.
pub struct PlumtreeMeasurements {
    /// IHAVE messages sent.
    pub ihave_sent: u64,
    /// GRAFT responses received.
    pub graft_received: u64,
    /// Messages that needed IHAVE recovery.
    pub messages_needing_recovery: u64,
}

impl Default for PlumtreeMeasurements {
    fn default() -> (m: Self)
        ensures
            m.ihave_sent == 0,
            m.graft_received == 0,
            m.messages_needing_recovery == 0,
    {
        PlumtreeMeasurements { ihave_sent: 0, graft_received: 0, messages_needing_recovery: 0 }
    }
}

/// Measured HyParView behaviour of a node.
pub struct HyParViewMeasurements {
    /// Shuffles started.
    pub shuffles_initiated: u64,
    /// Shuffles completed.
    pub shuffles_completed: u64,
    /// View updates received from shuffles.
    pub view_updates_from_shuffles: u64,
}

impl Default for HyParViewMeasurements {
    fn default() -> (m: Self)
        ensures
            m.shuffles_initiated == 0,
            m.shuffles_completed == 0,
            m.view_updates_from_shuffles == 0,
    {
        HyParViewMeasurements { shuffles_initiated: 0, shuffles_completed: 0, view_updates_from_shuffles: 0 }
    }
}

/// Outcome of the verification of the three gossip protocols.
pub struct VerificationSummary {
    /// Whether HyParView passed.
    pub hyparview_valid: bool,
    /// HyParView figures.
    pub hyparview_details: String,
    /// Whether SWIM passed.
    pub swim_valid: bool,
    /// SWIM figures.
    pub swim_details: String,
    /// Whether Plumtree passed.
    pub plumtree_valid: bool,
    /// Plumtree figures.
    pub plumtree_details: String,
    /// Nodes analysed.
    pub nodes_analyzed: usize,
}

impl VerificationSummary {
    /// Whether all three protocols passed.
    pub open spec fn all_valid(&self) -> bool {
        self.hyparview_valid && self.swim_valid && self.plumtree_valid
    }
}


/// `PASS` or `FAIL`.
pub open spec fn pass_fail(ok: bool) -> Seq<char> {
    if ok { "PASS"@ } else { "FAIL"@ }
}

/// Lines of the text of summary `s`.
pub open spec fn summary_lines(s: VerificationSummary) -> Seq<Seq<char>> {
    seq![
        "Gossip Protocol Verification ("@ + decimal(s.nodes_analyzed as nat) + " nodes):"@,
        "  HyParView: "@ + pass_fail(s.hyparview_valid) + " - "@ + s.hyparview_details@,
        "  SWIM:      "@ + pass_fail(s.swim_valid) + " - "@ + s.swim_details@,
        "  Plumtree:  "@ + pass_fail(s.plumtree_valid) + " - "@ + s.plumtree_details@,
    ]
}

/// Writes `label`, the verdict `ok` and `details` as a line.
fn write_verdict(out: &mut String, label: &str, ok: bool, details: &str, Ghost(lines): Ghost<Seq<Seq<char>>>)
    requires
        old(out)@ == lines_text(lines),
    ensures
        final(out)@ == lines_text(lines.push(label@ + pass_fail(ok) + " - "@ + details@)),
{
    let line = concat3(concat2(label, if ok { "PASS" } else { "FAIL" }).as_str(), " - ", details);
    write_line(out, line.as_str(), Ghost(lines));
}

impl VerificationSummary {
    /// The summary as text: the number of nodes, then a line for each
    /// protocol with its verdict and figures.
    pub fn to_text(&self) -> (t: String)
        ensures
            t@ == lines_text(summary_lines(*self)),
    {
        let mut out = String::new();
        let ghost mut lines: Seq<Seq<char>> = Seq::empty();
        assert(out@ =~= lines_text(lines));
        let head = concat3("Gossip Protocol Verification (", usize_to_text(self.nodes_analyzed).as_str(), " nodes):");
        write_line(&mut out, head.as_str(), Ghost(lines));
        proof { lines = lines.push(head@); }
        write_verdict(&mut out, "  HyParView: ", self.hyparview_valid, self.hyparview_details.as_str(), Ghost(lines));
        proof { lines = lines.push("  HyParView: "@ + pass_fail(self.hyparview_valid) + " - "@ + self.hyparview_details@); }
        write_verdict(&mut out, "  SWIM:      ", self.swim_valid, self.swim_details.as_str(), Ghost(lines));
        proof { lines = lines.push("  SWIM:      "@ + pass_fail(self.swim_valid) + " - "@ + self.swim_details@); }
        write_verdict(&mut out, "  Plumtree:  ", self.plumtree_valid, self.plumtree_details.as_str(), Ghost(lines));
        proof {
            lines = lines.push("  Plumtree:  "@ + pass_fail(self.plumtree_valid) + " - "@ + self.plumtree_details@);
            assert(lines =~= summary_lines(*self));
        }
        out
    }
}

} // verus!
