//! Proposal-based governance: building, voting on and executing multi-step proposals.

pub mod address;
pub mod decimal;
pub mod escrow;
pub mod execution;
pub mod governance;
pub mod history;
pub mod invariants;
pub mod laws;
pub mod model;
pub mod reentrancy;
pub mod status;
pub mod time;
pub mod transitions;
pub mod voting;
