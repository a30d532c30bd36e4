//! The facility's laws, stated over the cycle's functional specification
//! and proved once for all pool states and requests. Together with
//! `execute_flash_loan`'s contract — which pins its result to
//! `cycle_result` and pins every failing call to leave the pool state
//! untouched — each law carries over to the executable entry point.

use vstd::prelude::*;
use crate::errors::FlashLoanError;
use crate::loan::{
    cycle_result, guard_outcome, spec_total_repayment, ExecuteFlashLoan, FlashLoanExecuted,
};
use crate::{GRACE_PERIOD, LOAN_COOLDOWN, MAX_LOAN_AMOUNT};

verus! {

/// A request above the per-loan ceiling always fails with
/// `LoanAmountTooLarge`, whatever else the pool state or the clock holds.
pub proof fn lemma_amount_ceiling(
    pre: ExecuteFlashLoan,
    loan_amount: u64,
    loan_expiration: i64,
    now: i64,
    action_succeeded: bool,
    balance_after_action: u64,
)
    requires
        loan_amount > MAX_LOAN_AMOUNT,
    ensures
        cycle_result(pre, loan_amount, loan_expiration, now, action_succeeded,
            balance_after_action) == Err::<FlashLoanExecuted, FlashLoanError>(
            FlashLoanError::LoanAmountTooLarge,
        ),
{
}

/// A request within the ceiling but above the vault's liquidity always
/// fails with `InsufficientFunds`. (A request above the ceiling fails the
/// ceiling check first, so the ceiling hypothesis cannot be dropped.)
pub proof fn lemma_insufficient_liquidity(
    pre: ExecuteFlashLoan,
    loan_amount: u64,
    loan_expiration: i64,
    now: i64,
    action_succeeded: bool,
    balance_after_action: u64,
)
    requires
        loan_amount <= MAX_LOAN_AMOUNT,
        pre.loan_vault.amount < loan_amount,
    ensures
        cycle_result(pre, loan_amount, loan_expiration, now, action_succeeded,
            balance_after_action) == Err::<FlashLoanExecuted, FlashLoanError>(
            FlashLoanError::InsufficientFunds,
        ),
{
}

/// A request whose expiration plus the grace period lies strictly in the
/// past fails with `LoanExpired` — once the ceiling and liquidity checks,
/// which run first, pass.
pub proof fn lemma_expired(
    pre: ExecuteFlashLoan,
    loan_amount: u64,
    loan_expiration: i64,
    now: i64,
    action_succeeded: bool,
    balance_after_action: u64,
)
    requires
        loan_amount <= MAX_LOAN_AMOUNT,
        pre.loan_vault.amount >= loan_amount,
        now > loan_expiration + GRACE_PERIOD,
    ensures
        cycle_result(pre, loan_amount, loan_expiration, now, action_succeeded,
            balance_after_action) == Err::<FlashLoanExecuted, FlashLoanError>(
            FlashLoanError::LoanExpired,
        ),
{
}

/// The grace boundary is inclusive: at `now` exactly equal to the
/// expiration plus the grace period, the expiration check passes, and a
/// cycle that clears the other guards and repays exactly succeeds.
pub proof fn lemma_grace_boundary(
    pre: ExecuteFlashLoan,
    loan_amount: u64,
    loan_expiration: i64,
    now: i64,
    balance_after_action: u64,
)
    requires
        loan_amount <= MAX_LOAN_AMOUNT,
        pre.loan_vault.amount >= loan_amount,
        now == loan_expiration + GRACE_PERIOD,
        now >= pre.loan_state.last_loan_timestamp + LOAN_COOLDOWN,
        !pre.loan_state.active,
        balance_after_action == spec_total_repayment(loan_amount),
    ensures
        cycle_result(pre, loan_amount, loan_expiration, now, true, balance_after_action) is Ok,
{
}

/// A request arriving strictly inside the cooldown window fails with
/// `CooldownPeriodNotOver` — once the three checks before it pass.
pub proof fn lemma_cooldown_not_over(
    pre: ExecuteFlashLoan,
    loan_amount: u64,
    loan_expiration: i64,
    now: i64,
    action_succeeded: bool,
    balance_after_action: u64,
)
    requires
        loan_amount <= MAX_LOAN_AMOUNT,
        pre.loan_vault.amount >= loan_amount,
        now <= loan_expiration + GRACE_PERIOD,
        now < pre.loan_state.last_loan_timestamp + LOAN_COOLDOWN,
    ensures
        cycle_result(pre, loan_amount, loan_expiration, now, action_succeeded,
            balance_after_action) == Err::<FlashLoanExecuted, FlashLoanError>(
            FlashLoanError::CooldownPeriodNotOver,
        ),
{
}

/// The cooldown boundary is inclusive: at `now` exactly the previous
/// loan's timestamp plus the cooldown, the cooldown check passes, and a
/// cycle that clears the other guards and repays exactly succeeds.
pub proof fn lemma_cooldown_boundary(
    pre: ExecuteFlashLoan,
    loan_amount: u64,
    loan_expiration: i64,
    now: i64,
    balance_after_action: u64,
)
    requires
        loan_amount <= MAX_LOAN_AMOUNT,
        pre.loan_vault.amount >= loan_amount,
        now <= loan_expiration + GRACE_PERIOD,
        now == pre.loan_state.last_loan_timestamp + LOAN_COOLDOWN,
        !pre.loan_state.active,
        balance_after_action == spec_total_repayment(loan_amount),
    ensures
        cycle_result(pre, loan_amount, loan_expiration, now, true, balance_after_action) is Ok,
{
}

/// No cycle ever succeeds against a pool whose reentrancy flag is raised:
/// whatever the request, the clock, or the offered repayment, the attempt
/// fails — and, failing, it mutates nothing (by `execute_flash_loan`'s
/// contract), so the in-flight cycle's eventual outcome is unaffected.
/// When the four guards ahead of it pass, the error is `Reentrancy`
/// itself.
pub proof fn lemma_reentrancy_rejected(
    pre: ExecuteFlashLoan,
    loan_amount: u64,
    loan_expiration: i64,
    now: i64,
    action_succeeded: bool,
    balance_after_action: u64,
)
    requires
        pre.loan_state.active,
    ensures
        cycle_result(pre, loan_amount, loan_expiration, now, action_succeeded,
            balance_after_action) is Err,
        guard_outcome(pre.loan_state, pre.loan_vault.amount, loan_amount, loan_expiration, now)
            != Ok::<(), FlashLoanError>(()),
        (loan_amount <= MAX_LOAN_AMOUNT && pre.loan_vault.amount >= loan_amount && now
            <= loan_expiration + GRACE_PERIOD && now >= pre.loan_state.last_loan_timestamp
            + LOAN_COOLDOWN) ==> cycle_result(pre, loan_amount, loan_expiration, now,
            action_succeeded, balance_after_action) == Err::<FlashLoanExecuted, FlashLoanError>(
            FlashLoanError::Reentrancy,
        ),
{
}

/// Exact-repayment law: once the guards pass and the external action
/// completes, the cycle succeeds exactly when the borrower account's
/// balance equals principal plus fee; any other balance — one unit short,
/// one unit over, anything else — fails with `IncorrectRepayment`.
pub proof fn lemma_exact_repayment(
    pre: ExecuteFlashLoan,
    loan_amount: u64,
    loan_expiration: i64,
    now: i64,
    balance_after_action: u64,
)
    requires
        guard_outcome(pre.loan_state, pre.loan_vault.amount, loan_amount, loan_expiration, now)
            is Ok,
    ensures
        cycle_result(pre, loan_amount, loan_expiration, now, true, balance_after_action) is Ok
            <==> balance_after_action == spec_total_repayment(loan_amount),
        balance_after_action != spec_total_repayment(loan_amount) ==> cycle_result(pre,
            loan_amount, loan_expiration, now, true, balance_after_action) == Err::<
            FlashLoanExecuted,
            FlashLoanError,
        >(FlashLoanError::IncorrectRepayment),
{
}

/// Idempotence of failure: a failing cycle determines its error from the
/// pool state and the inputs alone, and (by `execute_flash_loan`'s
/// contract) leaves the pool state untouched — so repeating the call with
/// identical inputs against the state the failed call left behind yields
/// the identical error, and the statistics and loan state never move.
pub proof fn lemma_failure_idempotent(
    pre: ExecuteFlashLoan,
    after_failed_call: ExecuteFlashLoan,
    loan_amount: u64,
    loan_expiration: i64,
    now: i64,
    action_succeeded: bool,
    balance_after_action: u64,
)
    requires
        cycle_result(pre, loan_amount, loan_expiration, now, action_succeeded,
            balance_after_action) is Err,
        after_failed_call == pre,
    ensures
        cycle_result(after_failed_call, loan_amount, loan_expiration, now, action_succeeded,
            balance_after_action) == cycle_result(pre, loan_amount, loan_expiration, now,
            action_succeeded, balance_after_action),
        after_failed_call.loan_stats == pre.loan_stats,
        after_failed_call.loan_state == pre.loan_state,
{
}

} // verus!
