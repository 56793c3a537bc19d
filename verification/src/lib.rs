//! A vesting-grant accounting engine. A sponsoring entity creates a pool
//! backed by a custody account and issues linear-vesting grants with a
//! cliff to individual beneficiaries; the claim engine computes what a
//! grant owes at a given time, overflow-checked, and credits the
//! withdrawal ledger only once the external transfer is confirmed.
//!
//! Records live under addresses derived deterministically from their names
//! (pools) or from (beneficiary, pool) pairs (grants), so any caller can
//! recompute the expected address without a directory. The asset movement,
//! the clock and the backing runtime are external collaborators: the
//! engine takes the clock as a value and hands the transfer amount and the
//! treasury's recomputed authority seeds to the caller.

pub mod accounts;
pub mod address;
pub mod bytes;
pub mod claim;
pub mod errors;
pub mod laws;
pub mod registry;
pub mod schedule;
