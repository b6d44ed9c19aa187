//! Structured log entries, and the error reports built on top of them.
//!
//! An entry is one JSON object on one line of standard output. The logging
//! agent reads reserved field names out of it, and an entry that carries the
//! marker of a reported error is tracked as an error.

pub mod format;
pub mod identity;
pub mod panic_hook;
