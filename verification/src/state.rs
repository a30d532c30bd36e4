//! Persistent per-pool records: the in-flight/cooldown state and the
//! aggregate loan statistics, plus the balance view of a token account.

use vstd::prelude::*;

verus! {

/// The observable content of a token account: its balance, in asset units.
/// Custody of the real account is the host's; the logic here only reads
/// and recomputes the balance.
#[derive(Clone, Copy, Debug, PartialEq, Eq, Structural)]
pub struct TokenAccount {
    pub amount: u64,
}

/// Per-pool loan state: the reentrancy flag and the cooldown anchor.
/// `active` is true exactly while a loan cycle is mid-flight; it is the
/// sole record that a cycle is currently executing.
#[derive(Clone, Copy, Debug, PartialEq, Eq, Structural)]
pub struct LoanState {
    pub active: bool,
    pub last_loan_timestamp: i64,
}

/// Per-pool aggregate statistics over all completed loans.
#[derive(Clone, Copy, Debug, PartialEq, Eq, Structural)]
pub struct LoanStats {
    /// Cumulative principal disbursed.
    pub total_loans: u64,
    /// Cumulative fees collected.
    pub total_fees_collected: u64,
    /// Number of loans completed.
    pub total_loan_count: u64,
    /// Derived: `total_loans / total_loan_count`, recomputed from scratch
    /// on every update.
    pub average_loan_size: u64,
}

impl LoanStats {
    /// The average is consistent with the counters it is derived from; a
    /// pool that has completed no loans carries all-zero statistics.
    pub open spec fn wf(self) -> bool {
        &&& self.total_loan_count > 0 ==>
                self.average_loan_size == self.total_loans as int / self.total_loan_count as int
        &&& self.total_loan_count == 0 ==> {
                &&& self.total_loans == 0
                &&& self.total_fees_collected == 0
                &&& self.average_loan_size == 0
            }
    }

    /// The statistics after recording one completed loan of the given
    /// principal and fee.
    pub open spec fn spec_updated(self, loan_amount: u64, fee: u64) -> LoanStats {
        LoanStats {
            total_loans: (self.total_loans + loan_amount) as u64,
            total_fees_collected: (self.total_fees_collected + fee) as u64,
            total_loan_count: (self.total_loan_count + 1) as u64,
            average_loan_size: ((self.total_loans + loan_amount) as int
                / (self.total_loan_count + 1) as int) as u64,
        }
    }

    /// Records one completed loan: adds the principal and fee to the
    /// running totals, counts the loan, and recomputes the average from
    /// scratch. Counters never decrease.
    pub fn update_stats(&mut self, loan_amount: u64, fee: u64)
        requires
            old(self).total_loans + loan_amount <= u64::MAX,
            old(self).total_fees_collected + fee <= u64::MAX,
            old(self).total_loan_count + 1 <= u64::MAX,
        ensures
            *final(self) == old(self).spec_updated(loan_amount, fee),
            final(self).wf(),
            final(self).total_loans >= old(self).total_loans,
            final(self).total_fees_collected >= old(self).total_fees_collected,
            final(self).total_loan_count > old(self).total_loan_count,
    {
        self.total_loans = self.total_loans + loan_amount;
        self.total_fees_collected = self.total_fees_collected + fee;
        self.total_loan_count = self.total_loan_count + 1;
        self.average_loan_size = self.total_loans / self.total_loan_count;
    }
}

} // verus!
