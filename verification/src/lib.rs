//! An on-ledger crowdfunding accounting core.
//!
//! Two variants share one donation primitive. The multi-campaign registry
//! ([`registry`]) creates campaigns under strictly sequential ids and records
//! donations against each campaign's running total. The single-campaign escrow
//! ([`escrow`]) additionally holds a deadline and releases the funds to a
//! designated recipient only once the deadline has passed and the target has
//! been met.
//!
//! The host ledger's collaborators — the persistent store, the authorization
//! oracle, the clock, and the fund-transfer service — stay outside this crate.
//! Every entry point is a pure read-modify-write step on an explicit state
//! value: the host hands in the oracle's verdict, the current timestamp and
//! the live balance as plain values, and receives the new state together with
//! the [`types::Transfer`] the fund-transfer service must perform.

pub mod amounts;
pub mod types;
pub mod registry;
pub mod escrow;
