//! Where the data of the chain comes from.

pub mod felt;
pub mod ws;
