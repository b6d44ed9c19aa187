//! Streaming data to clients.

pub mod metrics;
