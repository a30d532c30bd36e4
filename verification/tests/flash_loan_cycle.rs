use flash_loan::errors::FlashLoanError;
use flash_loan::fee::calculate_dynamic_fee;
use flash_loan::loan::{
    begin_flash_loan, check_guards, complete_flash_loan, execute_flash_loan, ExecuteFlashLoan,
    FlashLoanExecuted, TransferDirection,
};
use flash_loan::state::{LoanState, LoanStats, TokenAccount};

/// A fresh pool: a funded vault, an empty borrower account, zeroed
/// statistics, no loan in flight, last loan long in the past.
fn fresh_pool(vault: u64) -> ExecuteFlashLoan {
    ExecuteFlashLoan {
        loan_vault: TokenAccount { amount: vault },
        borrower_account: TokenAccount { amount: 0 },
        borrower: 7,
        loan_stats: LoanStats {
            total_loans: 0,
            total_fees_collected: 0,
            total_loan_count: 0,
            average_loan_size: 0,
        },
        loan_state: LoanState {
            active: false,
            last_loan_timestamp: 0,
        },
    }
}

#[test]
fn fee_large_tier() {
    assert_eq!(calculate_dynamic_fee(600_000), 1_500);
}

#[test]
fn fee_boundary_half_million_falls_to_lower_tier() {
    assert_eq!(calculate_dynamic_fee(500_000), 2_500);
}

#[test]
fn fee_boundary_hundred_thousand_stays_small_tier() {
    assert_eq!(calculate_dynamic_fee(100_000), 1_000);
}

#[test]
fn fee_boundary_crossing_into_medium_tier() {
    assert_eq!(calculate_dynamic_fee(100_001), 500);
}

#[test]
fn amount_above_ceiling_fails_without_mutation() {
    let mut accounts = fresh_pool(1_000_000);
    let before = accounts;
    let r = execute_flash_loan(&mut accounts, 1_000_001, 1_000, 1_000, true, 0);
    assert_eq!(r, Err(FlashLoanError::LoanAmountTooLarge));
    assert_eq!(accounts, before);
}

#[test]
fn amount_above_liquidity_fails_without_mutation() {
    let mut accounts = fresh_pool(400);
    let before = accounts;
    let r = execute_flash_loan(&mut accounts, 500, 1_000, 1_000, true, 0);
    assert_eq!(r, Err(FlashLoanError::InsufficientFunds));
    assert_eq!(accounts, before);
}

#[test]
fn expired_past_grace_fails() {
    let mut accounts = fresh_pool(1_000_000);
    let before = accounts;
    let r = execute_flash_loan(&mut accounts, 200_000, 1_000, 1_031, true, 201_000);
    assert_eq!(r, Err(FlashLoanError::LoanExpired));
    assert_eq!(accounts, before);
}

#[test]
fn grace_boundary_is_inclusive() {
    let mut accounts = fresh_pool(1_000_000);
    let r = execute_flash_loan(&mut accounts, 200_000, 1_000, 1_030, true, 201_000);
    assert!(r.is_ok());
}

#[test]
fn cooldown_not_over_fails() {
    let mut accounts = fresh_pool(1_000_000);
    accounts.loan_state.last_loan_timestamp = 1_000;
    let before = accounts;
    let r = execute_flash_loan(&mut accounts, 200_000, 1_100, 1_059, true, 201_000);
    assert_eq!(r, Err(FlashLoanError::CooldownPeriodNotOver));
    assert_eq!(accounts, before);
}

#[test]
fn cooldown_boundary_is_inclusive() {
    let mut accounts = fresh_pool(1_000_000);
    accounts.loan_state.last_loan_timestamp = 1_000;
    let r = execute_flash_loan(&mut accounts, 200_000, 1_100, 1_060, true, 201_000);
    assert!(r.is_ok());
}

#[test]
fn reentrant_attempt_fails_and_in_flight_cycle_still_completes() {
    let mut accounts = fresh_pool(1_000_000);
    assert_eq!(begin_flash_loan(&mut accounts, 200_000, 1_000, 1_000), Ok(()));
    assert!(accounts.loan_state.active);
    assert_eq!(accounts.loan_vault.amount, 800_000);
    assert_eq!(accounts.borrower_account.amount, 200_000);

    // A reentrant call attempted mid-flight: it fails and mutates nothing.
    let mid_flight = accounts;
    let reentrant = execute_flash_loan(&mut accounts, 100, 1_000, 1_000, true, 101);
    assert_eq!(reentrant, Err(FlashLoanError::Reentrancy));
    assert_eq!(accounts, mid_flight);

    // The in-flight cycle's outcome is unaffected: it completes normally.
    accounts.borrower_account.amount = 201_000;
    let done = complete_flash_loan(&mut accounts, 200_000, 1_000);
    assert_eq!(
        done,
        Ok(FlashLoanExecuted {
            borrower: 7,
            loan_amount: 200_000,
            fee: 1_000,
        })
    );
    assert!(!accounts.loan_state.active);
}

#[test]
fn repayment_one_short_fails() {
    let mut accounts = fresh_pool(1_000_000);
    let before = accounts;
    let r = execute_flash_loan(&mut accounts, 200_000, 1_000, 1_000, true, 200_999);
    assert_eq!(r, Err(FlashLoanError::IncorrectRepayment));
    assert_eq!(accounts, before);
}

#[test]
fn repayment_one_over_fails() {
    let mut accounts = fresh_pool(1_000_000);
    let before = accounts;
    let r = execute_flash_loan(&mut accounts, 200_000, 1_000, 1_000, true, 201_001);
    assert_eq!(r, Err(FlashLoanError::IncorrectRepayment));
    assert_eq!(accounts, before);
}

#[test]
fn repayment_exact_succeeds() {
    let mut accounts = fresh_pool(1_000_000);
    let r = execute_flash_loan(&mut accounts, 200_000, 1_000, 1_000, true, 201_000);
    assert!(r.is_ok());
}

#[test]
fn failed_external_action_aborts_whole_unit() {
    let mut accounts = fresh_pool(1_000_000);
    let before = accounts;
    let r = execute_flash_loan(&mut accounts, 200_000, 1_000, 1_000, false, 0);
    assert_eq!(r, Err(FlashLoanError::LoanNotRepaid));
    assert_eq!(accounts, before);
}

#[test]
fn identical_invalid_inputs_fail_identically_twice() {
    let mut accounts = fresh_pool(400);
    let before = accounts;
    let first = execute_flash_loan(&mut accounts, 500, 1_000, 1_000, true, 0);
    let second = execute_flash_loan(&mut accounts, 500, 1_000, 1_000, true, 0);
    assert_eq!(first, Err(FlashLoanError::InsufficientFunds));
    assert_eq!(second, first);
    assert_eq!(accounts.loan_stats, before.loan_stats);
    assert_eq!(accounts.loan_state, before.loan_state);
}

#[test]
fn first_failing_guard_wins() {
    // Both the ceiling and the liquidity checks are violated; the ceiling
    // check runs first and its error surfaces.
    let mut accounts = fresh_pool(400);
    let r = execute_flash_loan(&mut accounts, 2_000_000, 1_000, 1_000, true, 0);
    assert_eq!(r, Err(FlashLoanError::LoanAmountTooLarge));
}

#[test]
fn check_guards_passes_silently_on_a_clean_request() {
    let accounts = fresh_pool(1_000_000);
    let r = check_guards(&accounts.loan_state, accounts.loan_vault.amount, 200_000, 1_000, 1_000);
    assert_eq!(r, Ok(()));
}

#[test]
fn transfer_contexts_name_their_directions() {
    let accounts = fresh_pool(1_000);
    assert_eq!(
        accounts.into_transfer_to_borrower_context().direction,
        TransferDirection::VaultToBorrower
    );
    assert_eq!(
        accounts.into_transfer_to_vault_context().direction,
        TransferDirection::BorrowerToVault
    );
}

#[test]
fn transfer_moves_balances_and_nothing_else() {
    let mut accounts = fresh_pool(1_000);
    let ctx = accounts.into_transfer_to_borrower_context();
    assert_eq!(accounts.transfer(ctx, 300), Ok(()));
    assert_eq!(accounts.loan_vault.amount, 700);
    assert_eq!(accounts.borrower_account.amount, 300);
    let back = accounts.into_transfer_to_vault_context();
    assert_eq!(accounts.transfer(back, 200), Ok(()));
    assert_eq!(accounts.loan_vault.amount, 900);
    assert_eq!(accounts.borrower_account.amount, 100);
}

#[test]
fn transfer_short_of_funds_fails_and_moves_nothing() {
    let mut accounts = fresh_pool(100);
    let ctx = accounts.into_transfer_to_borrower_context();
    assert_eq!(accounts.transfer(ctx, 300), Err(FlashLoanError::InsufficientFunds));
    assert_eq!(accounts.loan_vault.amount, 100);
    assert_eq!(accounts.borrower_account.amount, 0);
}

#[test]
fn update_stats_recomputes_average_from_scratch() {
    let mut stats = LoanStats {
        total_loans: 0,
        total_fees_collected: 0,
        total_loan_count: 0,
        average_loan_size: 0,
    };
    stats.update_stats(100, 1);
    stats.update_stats(301, 3);
    assert_eq!(stats.total_loans, 401);
    assert_eq!(stats.total_fees_collected, 4);
    assert_eq!(stats.total_loan_count, 2);
    assert_eq!(stats.average_loan_size, 200);
}

#[test]
fn end_to_end_cycle() {
    let now = 5_000;
    let mut accounts = fresh_pool(1_000_000);
    accounts.loan_state.last_loan_timestamp = now - 60;
    let r = execute_flash_loan(&mut accounts, 200_000, now, now, true, 201_000);
    assert_eq!(
        r,
        Ok(FlashLoanExecuted {
            borrower: 7,
            loan_amount: 200_000,
            fee: 1_000,
        })
    );
    assert_eq!(accounts.loan_vault.amount, 1_001_000);
    assert_eq!(accounts.borrower_account.amount, 0);
    assert_eq!(accounts.loan_stats.total_loans, 200_000);
    assert_eq!(accounts.loan_stats.total_fees_collected, 1_000);
    assert_eq!(accounts.loan_stats.total_loan_count, 1);
    assert_eq!(accounts.loan_stats.average_loan_size, 200_000);
    assert_eq!(accounts.loan_state.last_loan_timestamp, now);
    assert!(!accounts.loan_state.active);
}
