//! Lending control logic of a single-asset flash-loan facility.
//!
//! A borrower may withdraw funds from a shared pool and must repay the
//! principal plus a size-dependent fee within the same atomic unit of work.
//! This crate holds the guard and accounting logic that makes such an
//! uncollateralized, instantaneous loan safe: reentrancy exclusion,
//! expiration and cooldown timing, tiered fee computation, and exact
//! repayment verification. The asset-custody primitive, the borrower's
//! opaque external action, and persistence are host collaborators: the
//! host hands this library plain balances and timestamps and applies the
//! committed results.

use vstd::prelude::*;

pub mod errors;
pub mod fee;
pub mod state;
pub mod loan;
pub mod laws;

verus! {

/// Largest principal a single loan may draw from the pool.
pub const MAX_LOAN_AMOUNT: u64 = 1_000_000;

/// Seconds that must pass after a loan before the pool lends again.
pub const LOAN_COOLDOWN: i64 = 60;

/// Seconds past a request's declared expiration during which it is still
/// honoured, absorbing clock and propagation skew.
pub const GRACE_PERIOD: i64 = 30;

} // verus!
