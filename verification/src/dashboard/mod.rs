//! Data served by the web dashboard of the test network.

pub mod types;

pub use types::{
    OverviewResponse, ProofStatusApi, NetworkStatsApi, LocalNodeApi, ConnectedPeerApi, ConnectionsResponse,
    ConnectionEntryApi, DirectionalStatsApi, FramesResponse, ProtocolFrameApi, GossipResponse,
    HyParViewStatusApi, SwimStatusApi, PlumtreeStatusApi, GossipMessageStatsApi, FramesQuery,
    default_limit, outcome_symbol,
};
