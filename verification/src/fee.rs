//! Tiered fee schedule over the loan size.

use vstd::prelude::*;
use crate::MAX_LOAN_AMOUNT;

verus! {

/// The fee owed on a loan of the given size: a tiered basis-point schedule,
/// with larger loans paying a smaller rate. Boundary values fall into the
/// lower tier because the comparisons are strict. Integer division
/// truncates, deliberately: the fee is never rounded up against the
/// borrower, never rounded down against the pool.
pub open spec fn spec_fee(loan_amount: u64) -> int {
    if loan_amount > 500_000 {
        loan_amount * 25 / 10000
    } else if loan_amount > 100_000 {
        loan_amount * 50 / 10000
    } else {
        loan_amount * 100 / 10000
    }
}

/// Computes the fee for a loan of the given size per the tiered schedule.
pub fn calculate_dynamic_fee(loan_amount: u64) -> (fee: u64)
    requires
        loan_amount <= u64::MAX / 100,
    ensures
        fee == spec_fee(loan_amount),
{
    if loan_amount > 500_000 {
        (loan_amount * 25) / 10000
    } else if loan_amount > 100_000 {
        (loan_amount * 50) / 10000
    } else {
        (loan_amount * 100) / 10000
    }
}

/// The fee on any loan the facility can issue is at most 2,500 units:
/// every tier's rate times the ceiling of its range stays under that.
pub proof fn lemma_fee_bounded(loan_amount: u64)
    requires
        loan_amount <= MAX_LOAN_AMOUNT,
    ensures
        0 <= spec_fee(loan_amount) <= 2_500,
{
    if loan_amount > 500_000 {
        assert(loan_amount * 25 <= 25_000_000) by (nonlinear_arith)
            requires loan_amount <= 1_000_000;
        assert(loan_amount * 25 / 10000 <= 2_500);
    } else if loan_amount > 100_000 {
        assert(loan_amount * 50 <= 25_000_000) by (nonlinear_arith)
            requires loan_amount <= 500_000;
        assert(loan_amount * 50 / 10000 <= 2_500);
    } else {
        assert(loan_amount * 100 <= 10_000_000) by (nonlinear_arith)
            requires loan_amount <= 100_000;
        assert(loan_amount * 100 / 10000 <= 1_000);
    }
}

} // verus!
