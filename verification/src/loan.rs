//! The guard checker and the transfer orchestrator: one flash-loan cycle
//! from precondition checks through disbursement, repayment verification,
//! and the closing state update.

use vstd::prelude::*;
use crate::errors::FlashLoanError;
use crate::fee::{calculate_dynamic_fee, lemma_fee_bounded, spec_fee};
use crate::state::{LoanState, LoanStats, TokenAccount};
use crate::{GRACE_PERIOD, LOAN_COOLDOWN, MAX_LOAN_AMOUNT};

verus! {

/// Every record one flash-loan cycle reads and mutates: the pool's vault,
/// the borrower's account, the borrower's identity, and the pool's
/// persistent state and statistics. The host builds this from its own
/// accounts before a cycle and commits it back after a successful one.
#[derive(Clone, Copy, Debug, PartialEq, Eq, Structural)]
pub struct ExecuteFlashLoan {
    /// The pool's vault: source of principal, destination of repayment.
    pub loan_vault: TokenAccount,
    /// The borrower's account: destination of principal, source of
    /// repayment.
    pub borrower_account: TokenAccount,
    /// Identity of the borrower signing the cycle.
    pub borrower: u64,
    /// Aggregate statistics, updated only on the success path.
    pub loan_stats: LoanStats,
    /// Reentrancy flag and cooldown anchor.
    pub loan_state: LoanState,
}

/// Which way a balance transfer moves between the two accounts of a cycle.
#[derive(Clone, Copy, Debug, PartialEq, Eq, Structural)]
pub enum TransferDirection {
    /// Principal disbursement: vault to borrower, under the pool's
    /// authority.
    VaultToBorrower,
    /// Repayment: borrower to vault, under the borrower's authority.
    BorrowerToVault,
}

/// A prepared transfer between the cycle's accounts. The host's custody
/// primitive performs the real movement; within the model the direction
/// alone determines which balances change.
#[derive(Clone, Copy, Debug, PartialEq, Eq, Structural)]
pub struct TransferContext {
    pub direction: TransferDirection,
}

/// The balance a transfer in the given direction draws from.
pub open spec fn from_amount(accounts: ExecuteFlashLoan, direction: TransferDirection) -> u64 {
    match direction {
        TransferDirection::VaultToBorrower => accounts.loan_vault.amount,
        TransferDirection::BorrowerToVault => accounts.borrower_account.amount,
    }
}

/// The balance a transfer in the given direction pays into.
pub open spec fn to_amount(accounts: ExecuteFlashLoan, direction: TransferDirection) -> u64 {
    match direction {
        TransferDirection::VaultToBorrower => accounts.borrower_account.amount,
        TransferDirection::BorrowerToVault => accounts.loan_vault.amount,
    }
}

/// The accounts after moving `amount` in the given direction, other
/// records untouched.
pub open spec fn spec_transferred(
    accounts: ExecuteFlashLoan,
    direction: TransferDirection,
    amount: u64,
) -> ExecuteFlashLoan {
    match direction {
        TransferDirection::VaultToBorrower => ExecuteFlashLoan {
            loan_vault: TokenAccount { amount: (accounts.loan_vault.amount - amount) as u64 },
            borrower_account: TokenAccount {
                amount: (accounts.borrower_account.amount + amount) as u64,
            },
            ..accounts
        },
        TransferDirection::BorrowerToVault => ExecuteFlashLoan {
            loan_vault: TokenAccount { amount: (accounts.loan_vault.amount + amount) as u64 },
            borrower_account: TokenAccount {
                amount: (accounts.borrower_account.amount - amount) as u64,
            },
            ..accounts
        },
    }
}

/// The outcome of the five preconditions of a cycle, evaluated in their
/// fixed order — first failure wins:
/// amount ceiling, liquidity, expiration with grace, cooldown, reentrancy.
pub open spec fn guard_outcome(
    state: LoanState,
    vault_amount: u64,
    loan_amount: u64,
    loan_expiration: i64,
    now: i64,
) -> Result<(), FlashLoanError> {
    if loan_amount > MAX_LOAN_AMOUNT {
        Err(FlashLoanError::LoanAmountTooLarge)
    } else if vault_amount < loan_amount {
        Err(FlashLoanError::InsufficientFunds)
    } else if now > loan_expiration + GRACE_PERIOD {
        Err(FlashLoanError::LoanExpired)
    } else if now < state.last_loan_timestamp + LOAN_COOLDOWN {
        Err(FlashLoanError::CooldownPeriodNotOver)
    } else if state.active {
        Err(FlashLoanError::Reentrancy)
    } else {
        Ok(())
    }
}

/// Notification of a completed loan cycle, for the host to emit.
#[derive(Clone, Copy, Debug, PartialEq, Eq, Structural)]
pub struct FlashLoanExecuted {
    pub borrower: u64,
    pub loan_amount: u64,
    pub fee: u64,
}

impl ExecuteFlashLoan {
    /// Prepares the principal disbursement: vault to borrower, authorized
    /// by the pool.
    pub fn into_transfer_to_borrower_context(&self) -> (context: TransferContext)
        ensures
            context.direction == TransferDirection::VaultToBorrower,
    {
        TransferContext { direction: TransferDirection::VaultToBorrower }
    }

    /// Prepares the repayment: borrower to vault, authorized by the
    /// borrower.
    pub fn into_transfer_to_vault_context(&self) -> (context: TransferContext)
        ensures
            context.direction == TransferDirection::BorrowerToVault,
    {
        TransferContext { direction: TransferDirection::BorrowerToVault }
    }

    /// Moves `amount` between the cycle's accounts in the context's
    /// direction. Fails, moving nothing, exactly when the source balance
    /// is short; otherwise the source loses and the destination gains
    /// `amount`, every other record untouched.
    pub fn transfer(&mut self, context: TransferContext, amount: u64) -> (r: Result<
        (),
        FlashLoanError,
    >)
        requires
            from_amount(*old(self), context.direction) >= amount ==> to_amount(
                *old(self),
                context.direction,
            ) + amount <= u64::MAX,
        ensures
            from_amount(*old(self), context.direction) < amount ==> r == Err::<
                (),
                FlashLoanError,
            >(FlashLoanError::InsufficientFunds) && *final(self) == *old(self),
            from_amount(*old(self), context.direction) >= amount ==> r == Ok::<
                (),
                FlashLoanError,
            >(()) && *final(self) == spec_transferred(*old(self), context.direction, amount),
    {
        match context.direction {
            TransferDirection::VaultToBorrower => {
                if self.loan_vault.amount < amount {
                    return Err(FlashLoanError::InsufficientFunds);
                }
                self.loan_vault.amount = self.loan_vault.amount - amount;
                self.borrower_account.amount = self.borrower_account.amount + amount;
                Ok(())
            },
            TransferDirection::BorrowerToVault => {
                if self.borrower_account.amount < amount {
                    return Err(FlashLoanError::InsufficientFunds);
                }
                self.borrower_account.amount = self.borrower_account.amount - amount;
                self.loan_vault.amount = self.loan_vault.amount + amount;
                Ok(())
            },
        }
    }
}

/// Validates the five preconditions of a cycle against the pool state,
/// the vault's liquidity, the request, and the clock — in their fixed
/// order, mutating nothing. Returns exactly what `guard_outcome` says.
pub fn check_guards(
    state: &LoanState,
    vault_amount: u64,
    loan_amount: u64,
    loan_expiration: i64,
    now: i64,
) -> (r: Result<(), FlashLoanError>)
    ensures
        r == guard_outcome(*state, vault_amount, loan_amount, loan_expiration, now),
{
    if loan_amount > MAX_LOAN_AMOUNT {
        return Err(FlashLoanError::LoanAmountTooLarge);
    }
    if vault_amount < loan_amount {
        return Err(FlashLoanError::InsufficientFunds);
    }
    // The sums are taken in a wider type: a deadline or cooldown anchor
    // near the edge of the timestamp range must not wrap.
    if (now as i128) > (loan_expiration as i128) + (GRACE_PERIOD as i128) {
        return Err(FlashLoanError::LoanExpired);
    }
    if (now as i128) < (state.last_loan_timestamp as i128) + (LOAN_COOLDOWN as i128) {
        return Err(FlashLoanError::CooldownPeriodNotOver);
    }
    if state.active {
        return Err(FlashLoanError::Reentrancy);
    }
    Ok(())
}

/// The exact repayment a loan of the given size owes: principal plus fee.
pub open spec fn spec_total_repayment(loan_amount: u64) -> int {
    loan_amount + spec_fee(loan_amount)
}

/// The accounts after the opening half of a cycle: the reentrancy flag is
/// raised and the principal has moved from the vault to the borrower.
pub open spec fn spec_begun(pre: ExecuteFlashLoan, loan_amount: u64) -> ExecuteFlashLoan {
    ExecuteFlashLoan {
        loan_vault: TokenAccount { amount: (pre.loan_vault.amount - loan_amount) as u64 },
        borrower_account: TokenAccount {
            amount: (pre.borrower_account.amount + loan_amount) as u64,
        },
        loan_state: LoanState { active: true, ..pre.loan_state },
        ..pre
    }
}

/// Opens a cycle: runs the five guards against the state as it stands,
/// and only if all pass raises the reentrancy flag and disburses the
/// principal to the borrower. A guard failure returns its error with
/// nothing mutated. After success the facility is mid-flight: any
/// reentrant attempt now meets the raised flag.
pub fn begin_flash_loan(
    accounts: &mut ExecuteFlashLoan,
    loan_amount: u64,
    loan_expiration: i64,
    now: i64,
) -> (r: Result<(), FlashLoanError>)
    requires
        guard_outcome(
            old(accounts).loan_state,
            old(accounts).loan_vault.amount,
            loan_amount,
            loan_expiration,
            now,
        ) is Ok ==> old(accounts).borrower_account.amount + loan_amount <= u64::MAX,
    ensures
        r == guard_outcome(
            old(accounts).loan_state,
            old(accounts).loan_vault.amount,
            loan_amount,
            loan_expiration,
            now,
        ),
        r is Err ==> *final(accounts) == *old(accounts),
        r is Ok ==> *final(accounts) == spec_begun(*old(accounts), loan_amount),
{
    if let Err(e) = check_guards(
        &accounts.loan_state,
        accounts.loan_vault.amount,
        loan_amount,
        loan_expiration,
        now,
    ) {
        return Err(e);
    }
    accounts.loan_state.active = true;
    let context = accounts.into_transfer_to_borrower_context();
    if let Err(e) = accounts.transfer(context, loan_amount) {
        // The guards established vault liquidity, so the disbursement
        // cannot be short of funds.
        return Err(e);
    }
    Ok(())
}

/// Closes a mid-flight cycle after the borrower's external action: reads
/// the borrower account's entire balance as the offered repayment and
/// demands it equal principal plus fee exactly — shortfall and overshoot
/// both fail, mutating nothing, and the host's atomic unit then rolls the
/// opening half back. On the exact match the repayment returns to the
/// vault, the statistics record the loan, the reentrancy flag drops, and
/// the cooldown anchor moves to `now`.
pub fn complete_flash_loan(accounts: &mut ExecuteFlashLoan, loan_amount: u64, now: i64) -> (r:
    Result<FlashLoanExecuted, FlashLoanError>)
    requires
        old(accounts).loan_state.active,
        loan_amount <= u64::MAX / 100,
        old(accounts).borrower_account.amount == spec_total_repayment(loan_amount) ==> {
            &&& old(accounts).loan_vault.amount + spec_total_repayment(loan_amount) <= u64::MAX
            &&& old(accounts).loan_stats.total_loans + loan_amount <= u64::MAX
            &&& old(accounts).loan_stats.total_fees_collected + spec_fee(loan_amount) <= u64::MAX
            &&& old(accounts).loan_stats.total_loan_count + 1 <= u64::MAX
        },
    ensures
        old(accounts).borrower_account.amount != spec_total_repayment(loan_amount) ==> r == Err::<
            FlashLoanExecuted,
            FlashLoanError,
        >(FlashLoanError::IncorrectRepayment) && *final(accounts) == *old(accounts),
        old(accounts).borrower_account.amount == spec_total_repayment(loan_amount) ==> {
            &&& r == Ok::<FlashLoanExecuted, FlashLoanError>(
                FlashLoanExecuted {
                    borrower: old(accounts).borrower,
                    loan_amount,
                    fee: spec_fee(loan_amount) as u64,
                },
            )
            &&& *final(accounts) == ExecuteFlashLoan {
                loan_vault: TokenAccount {
                    amount: (old(accounts).loan_vault.amount + spec_total_repayment(
                        loan_amount,
                    )) as u64,
                },
                borrower_account: TokenAccount { amount: 0 },
                borrower: old(accounts).borrower,
                loan_stats: old(accounts).loan_stats.spec_updated(
                    loan_amount,
                    spec_fee(loan_amount) as u64,
                ),
                loan_state: LoanState { active: false, last_loan_timestamp: now },
            }
        },
{
    let fee = calculate_dynamic_fee(loan_amount);
    let total_repayment = loan_amount + fee;
    let repayment_amount = accounts.borrower_account.amount;
    if repayment_amount != total_repayment {
        return Err(FlashLoanError::IncorrectRepayment);
    }
    let context = accounts.into_transfer_to_vault_context();
    if let Err(e) = accounts.transfer(context, total_repayment) {
        // The repayment check just matched the borrower's balance against
        // the amount moved, so the transfer cannot be short of funds.
        return Err(e);
    }
    accounts.loan_stats.update_stats(loan_amount, fee);
    accounts.loan_state.active = false;
    accounts.loan_state.last_loan_timestamp = now;
    Ok(FlashLoanExecuted { borrower: accounts.borrower, loan_amount, fee })
}

/// The machine bounds a successful cycle needs: no balance or counter it
/// grows may pass the integer ceiling. Only cycles whose guards pass are
/// held to these; every failing input is admitted unconditionally.
pub open spec fn cycle_fits(pre: ExecuteFlashLoan, loan_amount: u64) -> bool {
    &&& pre.borrower_account.amount + loan_amount <= u64::MAX
    &&& pre.loan_vault.amount + spec_fee(loan_amount) <= u64::MAX
    &&& pre.loan_stats.total_loans + loan_amount <= u64::MAX
    &&& pre.loan_stats.total_fees_collected + spec_fee(loan_amount) <= u64::MAX
    &&& pre.loan_stats.total_loan_count + 1 <= u64::MAX
}

/// The result of one whole cycle on the given pool state and request,
/// with the borrower's opaque external action summarized by whether it
/// completed and the borrower-account balance it left behind: first
/// failing guard, else failure of the action, else the exact-repayment
/// verdict, else the completed loan's notification.
pub open spec fn cycle_result(
    pre: ExecuteFlashLoan,
    loan_amount: u64,
    loan_expiration: i64,
    now: i64,
    action_succeeded: bool,
    balance_after_action: u64,
) -> Result<FlashLoanExecuted, FlashLoanError> {
    match guard_outcome(pre.loan_state, pre.loan_vault.amount, loan_amount, loan_expiration, now) {
        Err(e) => Err(e),
        Ok(()) => if !action_succeeded {
            Err(FlashLoanError::LoanNotRepaid)
        } else if balance_after_action != spec_total_repayment(loan_amount) {
            Err(FlashLoanError::IncorrectRepayment)
        } else {
            Ok(
                FlashLoanExecuted {
                    borrower: pre.borrower,
                    loan_amount,
                    fee: spec_fee(loan_amount) as u64,
                },
            )
        },
    }
}

/// The pool state a successful cycle commits: the vault has gained the
/// fee (principal out, principal plus fee back), the borrower account is
/// drained to zero by the exact-match repayment, the statistics record
/// the loan, the reentrancy flag is down, and the cooldown anchor is the
/// cycle's clock reading.
pub open spec fn cycle_success_state(
    pre: ExecuteFlashLoan,
    loan_amount: u64,
    now: i64,
) -> ExecuteFlashLoan {
    ExecuteFlashLoan {
        loan_vault: TokenAccount {
            amount: (pre.loan_vault.amount + spec_fee(loan_amount)) as u64,
        },
        borrower_account: TokenAccount { amount: 0 },
        borrower: pre.borrower,
        loan_stats: pre.loan_stats.spec_updated(loan_amount, spec_fee(loan_amount) as u64),
        loan_state: LoanState { active: false, last_loan_timestamp: now },
    }
}

/// One whole flash-loan cycle as a single atomic unit of work.
///
/// The five guards run first and can abort with no side effects; only
/// then is the reentrancy flag raised and the principal disbursed. The
/// borrower's opaque external action — which ran between disbursement
/// and repayment and may have attempted a reentrant cycle, which the
/// raised flag rejects — is summarized by `action_succeeded` and
/// `balance_after_action`, the balance it left in the borrower account.
/// That entire balance is the offered repayment and must equal principal
/// plus fee exactly. Every failure, at any step, leaves the pool state
/// exactly as before the call: the rollback here is the explicit
/// transactional boundary the facility's safety rests on.
pub fn execute_flash_loan(
    accounts: &mut ExecuteFlashLoan,
    loan_amount: u64,
    loan_expiration: i64,
    now: i64,
    action_succeeded: bool,
    balance_after_action: u64,
) -> (r: Result<FlashLoanExecuted, FlashLoanError>)
    requires
        guard_outcome(
            old(accounts).loan_state,
            old(accounts).loan_vault.amount,
            loan_amount,
            loan_expiration,
            now,
        ) is Ok ==> cycle_fits(*old(accounts), loan_amount),
    ensures
        r == cycle_result(
            *old(accounts),
            loan_amount,
            loan_expiration,
            now,
            action_succeeded,
            balance_after_action,
        ),
        r is Err ==> *final(accounts) == *old(accounts),
        r is Ok ==> *final(accounts) == cycle_success_state(*old(accounts), loan_amount, now),
        r is Ok ==> final(accounts).loan_stats.wf(),
{
    // Snapshot of everything the opening half may touch, for rollback.
    let vault_before = accounts.loan_vault.amount;
    let borrower_before = accounts.borrower_account.amount;
    let state_before = accounts.loan_state;
    if let Err(e) = begin_flash_loan(accounts, loan_amount, loan_expiration, now) {
        return Err(e);
    }
    proof {
        lemma_fee_bounded(loan_amount);
    }
    if !action_succeeded {
        // The external action failed: the unit aborts whole, so the
        // opening half is rolled back and no repayment was offered.
        accounts.loan_vault.amount = vault_before;
        accounts.borrower_account.amount = borrower_before;
        accounts.loan_state = state_before;
        return Err(FlashLoanError::LoanNotRepaid);
    }
    // The action's one observable effect on the cycle: the balance it
    // left in the borrower account.
    accounts.borrower_account.amount = balance_after_action;
    match complete_flash_loan(accounts, loan_amount, now) {
        Ok(notification) => Ok(notification),
        Err(e) => {
            accounts.loan_vault.amount = vault_before;
            accounts.borrower_account.amount = borrower_before;
            accounts.loan_state = state_before;
            Err(e)
        },
    }
}

} // verus!
