//! The decisions of the Starkstream DNA server: ingestion state, object
//! storage, chain view synchronisation, structured logging, stream metrics and
//! heartbeats, and the Starknet head subscription.

pub mod chain_view;
pub mod cloud_logging;
pub mod data_stream;
pub mod ingestion;
pub mod json;
pub mod object_store;
pub mod provider;
pub mod server;
pub mod text;
