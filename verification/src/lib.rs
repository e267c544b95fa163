//! Verified core of the saorsa test-network tooling: CRDT convergence
//! checking, log-driven debugging, library verification bookkeeping and
//! the small parsers and formatters around them.

pub mod text;
pub mod keyed;
pub mod crdt_verification;
pub mod platform;
pub mod registry;
pub mod debug_automation;
pub mod lib_verification;
pub mod mcp;
pub mod bootstrap_peers;
pub mod dashboard;
pub mod communitas;
pub mod testctl;
pub mod dht_metrics;
pub mod cli;
pub mod gossip_verification;
pub mod proof_orchestrator;
pub mod proof_run;
