//! Serving streams of data.

pub mod stream_with_heartbeat;
