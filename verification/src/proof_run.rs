//! Decisions of a proof-based test run started from the command line: how
//! long to wait for enough nodes, and the settings of the orchestrator.
//!
//! The caller lists the nodes, sleeps between polls and prints; these
//! functions say what to do with each listing.

use vstd::prelude::*;
use crate::proof_orchestrator::ProofOrchestratorConfig;
use crate::text::owned;
use crate::debug_automation::{pattern_views, default_patterns_spec, Severity};

verus! {

/// Polls of the node listing, one every five seconds, before a run gives
/// up waiting for nodes: five minutes.
pub const MAX_NODE_POLLS: u32 = 60;

/// Seconds between two polls of the node listing.
pub const NODE_POLL_INTERVAL_SECS: u64 = 5;

/// What to do next while waiting for nodes.
#[derive(Debug, Clone, Copy, PartialEq, Eq, Structural)]
pub enum WaitAction {
    /// Enough nodes are there: go on with the run.
    Proceed,
    /// Too few nodes: wait, then list them again.
    Poll,
    /// Too few nodes after the last poll allowed: give up.
    GiveUp,
}

/// The wait for `needed` nodes before a run, with the polls made so far.
#[derive(Debug, Clone, Copy)]
pub struct NodeWait {
    /// Nodes the run needs.
    pub needed: usize,
    /// Polls made after the first listing.
    pub polls: u32,
}

/// The decision after a poll that found `found` nodes, the `polls`-th one
/// counting it.
pub open spec fn decision_after_poll(polls: int, found: int, needed: int) -> WaitAction {
    if found >= needed {
        WaitAction::Proceed
    } else if polls > MAX_NODE_POLLS {
        WaitAction::GiveUp
    } else {
        WaitAction::Poll
    }
}

impl NodeWait {
    /// A wait for `needed` nodes, with no poll made yet.
    pub fn new(needed: usize) -> (w: Self)
        ensures
            w.needed == needed,
            w.polls == 0,
    {
        NodeWait { needed, polls: 0 }
    }

    /// The decision on the first listing, which found `found` nodes: go on
    /// when there are enough of them, wait for more otherwise.
    pub fn first_check(&self, found: usize) -> (a: WaitAction)
        ensures
            a == (if found >= self.needed { WaitAction::Proceed } else { WaitAction::Poll }),
    {
        if found >= self.needed {
            WaitAction::Proceed
        } else {
            WaitAction::Poll
        }
    }

    /// The decision after a poll that found `found` nodes. A poll that
    /// finds too few counts; the wait gives up once more than
    /// [`MAX_NODE_POLLS`] of them have been made.
    pub fn after_poll(&mut self, found: usize) -> (a: WaitAction)
        requires
            old(self).polls <= MAX_NODE_POLLS,
        ensures
            final(self).needed == old(self).needed,
            final(self).polls == (if found >= old(self).needed { old(self).polls as int } else { old(self).polls + 1 }),
            a == decision_after_poll(final(self).polls as int, found as int, old(self).needed as int),
    {
        if found >= self.needed {
            return WaitAction::Proceed;
        }
        self.polls = self.polls + 1;
        if self.polls > MAX_NODE_POLLS {
            WaitAction::GiveUp
        } else {
            WaitAction::Poll
        }
    }
}

/// The settings of the orchestrator of a run started from the command
/// line, which needs `min_nodes` nodes: observed as `proof-test-cli`,
/// investigating the logs on failure, the defaults otherwise.
pub fn proof_test_config(min_nodes: usize) -> (c: ProofOrchestratorConfig)
    ensures
        c.observer_id@ == "proof-test-cli"@,
        c.min_nodes == min_nodes,
        c.debug_on_failure,
        c.max_proof_age_secs == 30,
        c.require_cross_validation,
        c.crdt_config.convergence_timeout_ms == 30_000,
        c.crdt_config.poll_interval_ms == 100,
        c.crdt_config.min_nodes == 2,
        c.crdt_config.verify_conflict_resolution,
        c.debug_config.max_log_lines == 10_000,
        c.debug_config.correlation_window_ms == 5000,
        pattern_views(c.debug_config.error_patterns@) == default_patterns_spec(),
        c.debug_config.min_severity == Severity::Warning,
{
    let mut c = ProofOrchestratorConfig::default();
    c.observer_id = owned("proof-test-cli");
    c.min_nodes = min_nodes;
    c.debug_on_failure = true;
    c
}

} // verus!
