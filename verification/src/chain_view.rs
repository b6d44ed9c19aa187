//! The view of the chain that consumers stream from.

pub mod sync;
