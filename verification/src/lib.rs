//! Core of a testnet token faucet.
//!
//! The faucet hands a fixed amount of the chain's native token to any
//! syntactically valid address, subject to a per-address cooldown and a
//! per-origin sliding-window rate limit.  This crate holds the decision
//! logic: address validation and normalization, the admission ledger
//! that arbitrates and records grants in two phases (reserve, then
//! commit once the external transfer succeeded), the claim
//! orchestration around that ledger, the error taxonomy with its wire
//! status codes and messages, and the stats summary.  HTTP routing,
//! JSON encoding and the actual on-chain transfer live outside this
//! crate and only hand plain values in and out.
use vstd::prelude::*;

pub mod address;
pub mod claim;
pub mod error;
pub mod laws;
pub mod ledger;
pub mod numfmt;
pub mod stats;

verus! {

/// Hours an address must wait between two successful grants.
pub const COOLDOWN_HOURS: u64 = 24;

/// The cooldown and rate-limit window, in seconds.
pub const COOLDOWN_SECS: u64 = COOLDOWN_HOURS * 3600;

/// Successful grants allowed per origin within one trailing window.
pub const MAX_REQUESTS_PER_ORIGIN: usize = 3;

/// Amount sent per grant, in wei.
pub const FAUCET_AMOUNT_WEI: u128 = 100_000_000_000_000_000_000;

/// Wei per whole token.
pub const WEI_PER_TOKEN: u128 = 1_000_000_000_000_000_000;

/// Amount sent per grant, in whole tokens.
pub const FAUCET_AMOUNT_TOKENS: u128 = FAUCET_AMOUNT_WEI / WEI_PER_TOKEN;

} // verus!
