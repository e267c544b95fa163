//! Distributed hash table metrics, as the terminal UI shows them.

pub mod stats_bridge;

pub use stats_bridge::StatsBridge;
