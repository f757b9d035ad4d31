//! Verified core of a Solana vote monitor: the subscription it asks a
//! Geyser gRPC endpoint for, the routing of the streamed updates, the
//! reports drawn from finalized blocks, the pending-vote tracker and the
//! line-protocol helpers used to ship metrics.

pub mod config;
pub mod db;
pub mod tracker;
pub mod geyser;
pub mod grpc;
pub mod vote_tracking;
