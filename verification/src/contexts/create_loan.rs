//! Creating a loan between a borrower and a lender.

use vstd::prelude::*;
use crate::accounts::{Account, TokenAccount};
use crate::errors::LoanError;
use crate::events::LoanCreated;
use crate::pubkey::Pubkey;
use crate::states::loan::LIQUIDATION_THRESHOLD_BPS;
use crate::states::{Loan, LoanStatus, Protocol};

verus! {

/// What a loan is created with.
#[derive(Clone, Copy, Debug, PartialEq, Eq)]
pub struct CreateLoan {
    pub borrower: Pubkey,
    pub lender: Pubkey,
    /// The asset that secures the loan.
    pub collateral_mint: Pubkey,
    /// The borrower's holding of that asset.
    pub collateral_token: TokenAccount,
    /// Key under which the new loan will be stored.
    pub loan: Pubkey,
    /// The market's registry, which counts the loan.
    pub protocol: Account<Protocol>,
    /// Bump seed of the loan's derived key.
    pub bump: u8,
}

/// What the creation of a loan makes and reports.
#[derive(Clone, Copy, Debug, PartialEq, Eq)]
pub struct Origination {
    /// The loan that was created.
    pub loan: Account<Loan>,
    pub event: LoanCreated,
}

impl CreateLoan {
    /// The collateral holding is of the collateral asset and belongs to the
    /// borrower.
    pub open spec fn spec_accounts_match(&self) -> bool {
        self.collateral_token.spec_is_for(&self.collateral_mint, &self.borrower)
    }

    /// Whether the holding handed in is the borrower's holding of the
    /// collateral asset.
    #[verifier::when_used_as_spec(spec_accounts_match)]
    pub fn accounts_match(&self) -> (yes: bool)
        ensures
            yes == self.spec_accounts_match(),
    {
        self.collateral_token.is_for(&self.collateral_mint, &self.borrower)
    }

    /// Why the loan is refused, if it is: the collateral holding is not the
    /// borrower's, the duration is not positive, the interest rate is not
    /// positive, or the principal is not positive, in this order.
    pub open spec fn rejection(&self, loan_amount: u64, duration: i64, interest_rate: u16) -> Option<
        LoanError,
    > {
        if !self.spec_accounts_match() {
            Some(LoanError::AccountMismatch)
        } else if duration <= 0 {
            Some(LoanError::InvalidLoanDuration)
        } else if interest_rate == 0 {
            Some(LoanError::InvalidInterestRate)
        } else if loan_amount == 0 {
            Some(LoanError::InsufficientLoanAmount)
        } else {
            None
        }
    }

    /// Runs the guards of the creation of a loan: the refusal, if there is
    /// one.
    pub fn validate(&self, loan_amount: u64, duration: i64, interest_rate: u16) -> (refusal: Option<
        LoanError,
    >)
        ensures
            refusal == self.rejection(loan_amount, duration, interest_rate),
    {
        if !self.accounts_match() {
            Some(LoanError::AccountMismatch)
        } else if duration <= 0 {
            Some(LoanError::InvalidLoanDuration)
        } else if interest_rate == 0 {
            Some(LoanError::InvalidInterestRate)
        } else if loan_amount == 0 {
            Some(LoanError::InsufficientLoanAmount)
        } else {
            None
        }
    }

    /// The loan that is created at `now`: `Active`, owing the whole
    /// principal, with the liquidation threshold at 8000 basis points.
    pub open spec fn created(&self, loan_amount: u64, duration: i64, interest_rate: u16, now: i64) -> Account<
        Loan,
    > {
        Account {
            key: self.loan,
            data: Loan {
                borrower: self.borrower,
                lender: self.lender,
                collateral_mint: self.collateral_mint,
                loan_amount,
                outstanding_amount: loan_amount,
                interest_rate,
                duration,
                start_time: now,
                status: LoanStatus::Active,
                liquidation_threshold: LIQUIDATION_THRESHOLD_BPS,
                bump: self.bump,
            },
        }
    }

    /// The loan and the report of its creation at `now`.
    pub open spec fn origination(
        &self,
        loan_amount: u64,
        duration: i64,
        interest_rate: u16,
        now: i64,
    ) -> Origination {
        Origination {
            loan: self.created(loan_amount, duration, interest_rate, now),
            event: LoanCreated {
                loan: self.loan,
                borrower: self.borrower,
                lender: self.lender,
                collateral_mint: self.collateral_mint,
                amount: loan_amount,
                duration,
                interest_rate,
            },
        }
    }

    /// The records after the creation: the registry counts one loan more
    /// and `loan_amount` more volume; all else is as before.
    pub open spec fn counted(&self, loan_amount: u64) -> CreateLoan {
        CreateLoan {
            protocol: Account {
                key: self.protocol.key,
                data: Protocol {
                    total_loans: (self.protocol.data.total_loans + 1) as u64,
                    total_volume: (self.protocol.data.total_volume + loan_amount) as u64,
                    ..self.protocol.data
                },
            },
            ..*self
        }
    }
}

/// Creates a loan of `loan_amount` for `duration` seconds at `interest_rate`
/// basis points a year, starting at `now`.
///
/// On success the result holds the new loan, and the registry has counted
/// it. A refused request changes nothing.
///
/// The registry's counters have room for the loan.
pub fn handler(
    ctx: &mut CreateLoan,
    loan_amount: u64,
    duration: i64,
    interest_rate: u16,
    now: i64,
) -> (result: Result<Origination, LoanError>)
    requires
        old(ctx).rejection(loan_amount, duration, interest_rate) is None ==> old(
            ctx,
        ).protocol.data.total_loans < u64::MAX && old(ctx).protocol.data.total_volume + loan_amount
            <= u64::MAX,
    ensures
        match result {
            Ok(origination) => {
                &&& old(ctx).rejection(loan_amount, duration, interest_rate) is None
                &&& origination == old(ctx).origination(loan_amount, duration, interest_rate, now)
                &&& origination.loan.data.wf()
                &&& *final(ctx) == old(ctx).counted(loan_amount)
            },
            Err(e) => old(ctx).rejection(loan_amount, duration, interest_rate) == Some(e)
                && *final(ctx) == *old(ctx),
        },
        old(ctx).spec_accounts_match() && duration > 0 && interest_rate > 0 && loan_amount > 0
            ==> result is Ok,
{
    match ctx.validate(loan_amount, duration, interest_rate) {
        Some(refusal) => {
            return Err(refusal);
        },
        None => {},
    }
    let loan = Loan {
        borrower: ctx.borrower,
        lender: ctx.lender,
        collateral_mint: ctx.collateral_mint,
        loan_amount,
        outstanding_amount: loan_amount,
        interest_rate,
        duration,
        start_time: now,
        status: LoanStatus::Active,
        liquidation_threshold: LIQUIDATION_THRESHOLD_BPS,
        bump: ctx.bump,
    };

    ctx.protocol.data.total_loans = ctx.protocol.data.total_loans + 1;
    ctx.protocol.data.total_volume = ctx.protocol.data.total_volume + loan_amount;

    let event = LoanCreated {
        loan: ctx.loan,
        borrower: loan.borrower,
        lender: loan.lender,
        collateral_mint: loan.collateral_mint,
        amount: loan_amount,
        duration,
        interest_rate,
    };
    Ok(Origination { loan: Account { key: ctx.loan, data: loan }, event })
}

} // verus!
