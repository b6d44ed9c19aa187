//! The state that the ingester shares with its consumers.

pub mod state_client;
pub mod testing;
