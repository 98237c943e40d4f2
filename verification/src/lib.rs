//! A validation and decision core for a single-file backup tool.
//!
//! The library decides; a driver performs. Every name is validated before any
//! request that touches a file is issued, every event is recorded in an
//! append-only journal, and each handler is a transition function from the
//! outcome of the last request to the next one.

pub mod error;
pub mod filename;
pub mod journal;
pub mod operation;
pub mod session;
pub mod text;
