//! Accounting and settlement core of a pooled-fundraising ledger.
//!
//! Campaigns are created with a funding goal and a deadline, contributions
//! are recorded against a campaign while it is open, and after the deadline
//! passes the raised funds are either released to the campaign creator (goal
//! met) or returned to the contributors (goal missed).
//!
//! This crate holds the decision logic and the ledger bookkeeping, verified.
//! The host-facing pieces — persistent storage, authentication, the clock,
//! and the value-transfer primitive — stay outside: the settlement functions
//! here take the current time as an argument and hand back explicit
//! [`campaign::Transfer`] instructions for the host to perform.

pub mod errors;

pub mod campaign;

pub mod contract;

pub mod laws;

pub mod time_bound;
