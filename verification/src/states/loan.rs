//! The loan record, its interest and its liquidation rule.

use vstd::prelude::*;
use crate::pubkey::Pubkey;
use crate::utils::BASIS_POINTS;

verus! {

/// Where a loan stands in its life. A loan starts `Active`; from there it is
/// either `Repaid`, or put `InAuction` and then `Liquidated`.
#[derive(Clone, Copy, Debug, PartialEq, Eq, Structural)]
pub enum LoanStatus {
    Active,
    Repaid,
    Liquidated,
    InAuction,
}

impl LoanStatus {
    /// The steps a loan's status can take: `Active` to `Repaid`, `Active` to
    /// `InAuction`, `InAuction` to `Liquidated`.
    pub open spec fn may_become(self, next: LoanStatus) -> bool {
        ||| self is Active && next is Repaid
        ||| self is Active && next is InAuction
        ||| self is InAuction && next is Liquidated
    }

    /// No step leads out of this status.
    pub open spec fn is_terminal(self) -> bool {
        self is Repaid || self is Liquidated
    }
}

/// Seconds in a year of 365 days.
pub const SECONDS_PER_YEAR: u64 = 31536000;

/// The loan-to-value ceiling given to every new loan, in basis points.
pub const LIQUIDATION_THRESHOLD_BPS: u16 = 8000;

/// Interest accrued on `loan_amount` at `rate_bps` basis points a year over
/// `elapsed` seconds, rounded down.
pub open spec fn interest_due(loan_amount: u64, rate_bps: u16, elapsed: int) -> int {
    (loan_amount * rate_bps * elapsed) / (BASIS_POINTS * SECONDS_PER_YEAR)
}

/// Value of the collateral per unit of debt, in basis points, rounded down.
pub open spec fn collateral_ratio_bps(collateral_value: u64, outstanding_amount: u64) -> int
    recommends
        outstanding_amount > 0,
{
    (collateral_value * BASIS_POINTS) / (outstanding_amount as int)
}

/// A loan between a borrower and a lender, secured by one unit of the asset
/// `collateral_mint`.
#[derive(Clone, Copy, Debug, PartialEq, Eq)]
pub struct Loan {
    pub borrower: Pubkey,
    pub lender: Pubkey,
    pub collateral_mint: Pubkey,
    /// Principal.
    pub loan_amount: u64,
    /// What is still owed of the principal.
    pub outstanding_amount: u64,
    /// Yearly interest, in basis points.
    pub interest_rate: u16,
    /// Term of the loan, in seconds.
    pub duration: i64,
    /// When the loan was made, in seconds.
    pub start_time: i64,
    pub status: LoanStatus,
    /// Loan-to-value ceiling, in basis points.
    pub liquidation_threshold: u16,
    /// Bump seed of the record's derived key.
    pub bump: u8,
}

impl Loan {
    /// Bytes a stored loan takes.
    pub const LEN: usize = 32 + 32 + 32 + 8 + 8 + 2 + 8 + 8 + 1 + 2 + 1;

    /// What holds of every loan the market makes and keeps: the debt never
    /// exceeds the principal, it is the whole principal until the loan is
    /// repaid, and nothing once it is.
    pub open spec fn wf(&self) -> bool {
        &&& self.outstanding_amount <= self.loan_amount
        &&& self.status is Repaid ==> self.outstanding_amount == 0
        &&& !(self.status is Repaid) ==> self.outstanding_amount == self.loan_amount
    }

    /// The term has run out at `current_time`.
    pub open spec fn is_expired(&self, current_time: i64) -> bool {
        current_time > self.start_time + self.duration
    }

    /// The collateral, worth `collateral_value`, covers less of the debt than
    /// the threshold asks. A loan that owes nothing is never
    /// undercollateralised.
    pub open spec fn is_undercollateralized(&self, collateral_value: u64) -> bool {
        self.outstanding_amount != 0 && collateral_ratio_bps(
            collateral_value,
            self.outstanding_amount,
        ) < self.liquidation_threshold
    }

    /// The loan may be liquidated: it is expired or undercollateralised.
    pub open spec fn spec_is_liquidatable(&self, current_time: i64, collateral_value: u64) -> bool {
        self.is_expired(current_time) || self.is_undercollateralized(collateral_value)
    }

    /// Whether the loan may be liquidated at `current_time`, with the
    /// collateral worth `collateral_value`.
    #[verifier::when_used_as_spec(spec_is_liquidatable)]
    pub fn is_liquidatable(&self, current_time: i64, collateral_value: u64) -> (yes: bool)
        ensures
            yes == self.spec_is_liquidatable(current_time, collateral_value),
    {
        let is_expired = current_time as i128 > self.start_time as i128 + self.duration as i128;
        let is_undercollateralized = if self.outstanding_amount == 0 {
            false
        } else {
            let scaled: u128 = collateral_value as u128 * 10000;
            let collateral_ratio: u128 = scaled / self.outstanding_amount as u128;
            collateral_ratio < self.liquidation_threshold as u128
        };
        is_expired || is_undercollateralized
    }

    /// Interest accrued from the start of the loan to `current_time`.
    pub open spec fn interest_at(&self, current_time: i64) -> int {
        interest_due(self.loan_amount, self.interest_rate, current_time - self.start_time)
    }

    /// Principal and interest owed at `current_time`.
    pub open spec fn repayment_at(&self, current_time: i64) -> int {
        self.loan_amount + self.interest_at(current_time)
    }

    /// Interest accrued from the start of the loan to `current_time`, as a
    /// wide integer; nothing where even the product of principal, rate and
    /// seconds is wider than 128 bits, and the interest with it wider than
    /// 64.
    fn accrued(&self, current_time: i64) -> (interest: Option<u128>)
        requires
            self.start_time <= current_time,
        ensures
            match interest {
                Some(i) => i == self.interest_at(current_time) && i <= u128::MAX - u64::MAX,
                None => self.interest_at(current_time) > u64::MAX,
            },
    {
        let elapsed: u128 = (current_time as i128 - self.start_time as i128) as u128;
        assert(self.loan_amount * self.interest_rate <= u64::MAX * u16::MAX) by (nonlinear_arith);
        let yearly: u128 = self.loan_amount as u128 * self.interest_rate as u128;
        proof {
            let product = self.loan_amount * self.interest_rate * (current_time - self.start_time);
            assert(yearly * elapsed == product) by (nonlinear_arith)
                requires
                    yearly == self.loan_amount * self.interest_rate,
                    elapsed == current_time - self.start_time,
                    product == self.loan_amount * self.interest_rate * (current_time
                        - self.start_time),
            ;
            assert(BASIS_POINTS * SECONDS_PER_YEAR == 315360000000);
        }
        match yearly.checked_mul(elapsed) {
            None => None,
            Some(product) => Some(product / 315360000000),
        }
    }

    /// Principal and interest owed at `current_time`; nothing where
    /// `current_time` is before the start of the loan or the sum does not
    /// fit in 64 bits.
    pub fn checked_repayment(&self, current_time: i64) -> (total: Option<u64>)
        ensures
            total == if self.start_time <= current_time && self.repayment_at(current_time)
                <= u64::MAX {
                Some(self.repayment_at(current_time) as u64)
            } else {
                None::<u64>
            },
    {
        if current_time < self.start_time {
            return None;
        }
        match self.accrued(current_time) {
            None => None,
            Some(interest) => {
                let total: u128 = self.loan_amount as u128 + interest;
                if total <= u64::MAX as u128 {
                    Some(total as u64)
                } else {
                    None
                }
            },
        }
    }

    /// Interest accrued from the start of the loan to `current_time`.
    ///
    /// `current_time` is not before the start of the loan, and the interest
    /// fits in 64 bits.
    pub fn calculate_interest(&self, current_time: i64) -> (interest: u64)
        requires
            self.start_time <= current_time,
            self.interest_at(current_time) <= u64::MAX,
        ensures
            interest == self.interest_at(current_time),
    {
        self.accrued(current_time).unwrap() as u64
    }
}

} // verus!
