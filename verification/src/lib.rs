//! A single-property rental agreement, modelled as a deterministic state
//! machine: one owner, a mutable rent price, and a roster of renters, mutated
//! only through authorized, atomic transitions triggered by external callers.
//!
//! The host environment (message transport, signature checking, persistent
//! storage, wire encoding) is kept outside: every transition here is a total
//! function from plain values to plain values, with its behaviour stated in
//! `ensures` clauses.

pub mod contract;
pub mod error;
pub mod laws;
pub mod msg;
pub mod response;
pub mod state;
pub mod store;
