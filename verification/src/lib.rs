//! A token-vesting escrow: tickets release a granted balance to a
//! beneficiary on a cliff-plus-linear schedule, an oracle-driven price
//! gate can unlock the whole remaining balance early, and the depositor
//! may revoke a revocable ticket and reclaim what is left.
//!
//! The ledger itself (token transfers, authority changes), the oracle
//! reads and the clock live outside this crate; every operation here is
//! a checked state transition over plain values that also reports which
//! transfer the caller must perform.

pub mod accounts;
pub mod authority;
pub mod errors;
pub mod gate;
pub mod laws;
pub mod ops;
pub mod schedule;
pub mod ticket;
