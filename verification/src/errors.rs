//! Error taxonomy of the flash-loan facility.

use vstd::prelude::*;

verus! {

/// Every way a flash-loan cycle can fail. All errors are terminal: a failed
/// cycle aborts as one atomic unit, leaving pool state exactly as before.
#[derive(Clone, Copy, Debug, PartialEq, Eq, Structural)]
pub enum FlashLoanError {
    /// The loan vault holds less than the requested principal.
    InsufficientFunds,
    /// The borrower's external action did not complete, so no repayment
    /// was offered.
    LoanNotRepaid,
    /// The fee schedule could not be applied.
    InvalidFeeStructure,
    /// A second cycle was attempted while one was already mid-flight.
    Reentrancy,
    /// The request's expiration, plus the grace period, lies in the past.
    LoanExpired,
    /// The requested principal exceeds the per-loan ceiling.
    LoanAmountTooLarge,
    /// The borrower's account did not hold exactly principal plus fee.
    IncorrectRepayment,
    /// The cooldown window since the previous loan has not elapsed.
    CooldownPeriodNotOver,
}

} // verus!
