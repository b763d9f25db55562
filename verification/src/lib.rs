//! A token-weighted governance engine.
//!
//! The engine decides, from recorded votes and configurable policy
//! parameters, whether a proposal passes, and enforces the temporal and
//! procedural rules around voting: a proposal is created once, votes are
//! accepted only inside the proposal's window, tallies only grow, and a
//! proposal is executed at most once, after its window closes, when both
//! the quorum and the approval threshold are met.
//!
//! The ledger substrate that persists these records, authenticates callers,
//! supplies the clock, and resolves an account's voting power is a set of
//! external collaborators: the engine takes their answers (the current time,
//! a voter's weight) as plain arguments and returns the new records and the
//! notifications to emit.

pub mod engine;
pub mod errors;
pub mod laws;
pub mod model;
pub mod tally;
