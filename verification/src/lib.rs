//! State-transition core of the dgc ledger transaction family.
//!
//! The library derives storage addresses for ledger records, decodes
//! comma-separated instruction payloads into typed actions, reads and
//! writes ASCII-decimal record values through an in-memory snapshot of
//! the opaque key/value store, and applies each action's validation and
//! update rules. The surrounding transaction-processing framework (which
//! delivers requests and persists the snapshot's writes) lives outside
//! this crate.

pub mod address;
pub mod errors;
pub mod handler;
pub mod numeric;
pub mod payload;
pub mod state;
pub mod text;
