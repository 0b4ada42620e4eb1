//! A reputation ledger for autonomous agents.
//!
//! Agents register a profile once per owner key; buyers then record the
//! outcome of each paid service interaction, which appends an immutable
//! validation record and moves the seller's reputation score.

pub mod address;
pub mod records;
pub mod ledger;
pub mod program;
pub mod laws;
