//! Repaying a loan: the borrower pays principal and interest to the lender
//! and gets the collateral back.

use vstd::prelude::*;
use crate::accounts::{Account, TokenAccount, Transfer};
use crate::errors::LoanError;
use crate::events::LoanRepaid;
use crate::pubkey::Pubkey;
use crate::states::{Loan, LoanStatus, Vault};

verus! {

/// What a repayment is made with.
#[derive(Clone, Copy, Debug, PartialEq, Eq)]
pub struct RepayLoan {
    /// The party that signed the request as borrower.
    pub borrower: Pubkey,
    /// The party that signed the request as lender.
    pub lender: Pubkey,
    pub loan: Account<Loan>,
    pub vault: Account<Vault>,
    /// Where the borrower receives the collateral.
    pub borrower_token: TokenAccount,
    /// Where the vault keeps the collateral.
    pub vault_token: TokenAccount,
    /// Where the borrower pays from.
    pub borrower_usdc: TokenAccount,
    /// Where the lender is paid.
    pub lender_usdc: TokenAccount,
}

/// What a repayment asks for and reports.
#[derive(Clone, Copy, Debug, PartialEq, Eq)]
pub struct Repayment {
    /// Principal and interest, from the borrower to the lender.
    pub payment: Transfer,
    /// The collateral, from the vault back to the borrower.
    pub collateral: Transfer,
    pub event: LoanRepaid,
}

impl RepayLoan {
    /// Both signers are the parties that the loan names.
    pub open spec fn spec_signers_match(&self) -> bool {
        self.loan.data.borrower == self.borrower && self.loan.data.lender == self.lender
    }

    /// Both signers are the parties that the loan names.
    #[verifier::when_used_as_spec(spec_signers_match)]
    pub fn signers_match(&self) -> (yes: bool)
        ensures
            yes == self.spec_signers_match(),
    {
        self.loan.data.borrower == self.borrower && self.loan.data.lender == self.lender
    }

    /// The vault is the loan's, the two collateral holdings are of the
    /// loan's asset and belong to the borrower and to the vault, and the two
    /// payment holdings belong to the borrower and to the lender.
    pub open spec fn spec_accounts_match(&self) -> bool {
        &&& self.vault.data.loan == self.loan.key
        &&& self.borrower_token.spec_is_for(&self.loan.data.collateral_mint, &self.borrower)
        &&& self.vault_token.spec_is_for(&self.loan.data.collateral_mint, &self.vault.key)
        &&& self.borrower_usdc.spec_is_owned_by(&self.borrower)
        &&& self.lender_usdc.spec_is_owned_by(&self.lender)
    }

    /// Whether the records and holdings handed in belong together.
    #[verifier::when_used_as_spec(spec_accounts_match)]
    pub fn accounts_match(&self) -> (yes: bool)
        ensures
            yes == self.spec_accounts_match(),
    {
        self.vault.data.loan == self.loan.key
            && self.borrower_token.is_for(&self.loan.data.collateral_mint, &self.borrower)
            && self.vault_token.is_for(&self.loan.data.collateral_mint, &self.vault.key)
            && self.borrower_usdc.is_owned_by(&self.borrower)
            && self.lender_usdc.is_owned_by(&self.lender)
    }

    /// Why the repayment is refused, if it is: the loan is not `Active`, a
    /// signer is not the loan's party, or a record or holding is not the
    /// loan's, in this order.
    pub open spec fn rejection(&self) -> Option<LoanError> {
        if !(self.loan.data.status is Active) {
            Some(LoanError::LoanNotActive)
        } else if !self.spec_signers_match() {
            Some(LoanError::Unauthorized)
        } else if !self.spec_accounts_match() {
            Some(LoanError::AccountMismatch)
        } else {
            None
        }
    }

    /// Runs the guards of a repayment: the refusal, if there is one.
    pub fn validate(&self) -> (refusal: Option<LoanError>)
        ensures
            refusal == self.rejection(),
    {
        if self.loan.data.status != LoanStatus::Active {
            Some(LoanError::LoanNotActive)
        } else if !self.signers_match() {
            Some(LoanError::Unauthorized)
        } else if !self.accounts_match() {
            Some(LoanError::AccountMismatch)
        } else {
            None
        }
    }

    /// The transfers and the report of a repayment made at `now`.
    pub open spec fn repayment(&self, now: i64) -> Repayment {
        let total = self.loan.data.repayment_at(now) as u64;
        Repayment {
            payment: Transfer {
                from: self.borrower_usdc.key,
                to: self.lender_usdc.key,
                authority: self.borrower,
                amount: total,
            },
            collateral: Transfer {
                from: self.vault_token.key,
                to: self.borrower_token.key,
                authority: self.vault.data.authority,
                amount: 1,
            },
            event: LoanRepaid { loan: self.loan.key, borrower: self.loan.data.borrower, amount: total },
        }
    }

    /// The records after the repayment: the loan is `Repaid` and owes
    /// nothing; all else is as before.
    pub open spec fn repaid(&self) -> RepayLoan {
        RepayLoan {
            loan: Account {
                key: self.loan.key,
                data: Loan { status: LoanStatus::Repaid, outstanding_amount: 0, ..self.loan.data },
            },
            ..*self
        }
    }
}

/// Repays the loan at time `now`.
///
/// On success the loan is `Repaid` with nothing outstanding, and the result
/// holds the payment of principal plus accrued interest and the return of
/// the collateral. A refused request changes nothing.
///
/// `now` is not before the loan's start, and principal plus interest fits
/// in 64 bits.
pub fn handler(ctx: &mut RepayLoan, now: i64) -> (result: Result<Repayment, LoanError>)
    requires
        old(ctx).rejection() is None ==> old(ctx).loan.data.start_time <= now && old(
            ctx,
        ).loan.data.repayment_at(now) <= u64::MAX,
    ensures
        match result {
            Ok(repayment) => {
                &&& old(ctx).rejection() is None
                &&& repayment == old(ctx).repayment(now)
                &&& *final(ctx) == old(ctx).repaid()
            },
            Err(e) => old(ctx).rejection() == Some(e) && *final(ctx) == *old(ctx),
        },
        old(ctx).loan.data.status is Active && old(ctx).spec_signers_match() && old(
            ctx,
        ).spec_accounts_match() ==> result is Ok,
        !(old(ctx).loan.data.status is Active) ==> result == Err::<Repayment, LoanError>(
            LoanError::LoanNotActive,
        ),
        final(ctx).loan.data.status == old(ctx).loan.data.status || old(
            ctx,
        ).loan.data.status.may_become(final(ctx).loan.data.status),
        old(ctx).loan.data.wf() ==> final(ctx).loan.data.wf(),
{
    match ctx.validate() {
        Some(refusal) => {
            return Err(refusal);
        },
        None => {},
    }
    let interest = ctx.loan.data.calculate_interest(now);
    let total_repayment = ctx.loan.data.loan_amount + interest;

    let payment = Transfer {
        from: ctx.borrower_usdc.key,
        to: ctx.lender_usdc.key,
        authority: ctx.borrower,
        amount: total_repayment,
    };
    let collateral = Transfer {
        from: ctx.vault_token.key,
        to: ctx.borrower_token.key,
        authority: ctx.vault.data.authority,
        amount: 1,
    };

    ctx.loan.data.status = LoanStatus::Repaid;
    ctx.loan.data.outstanding_amount = 0;

    let event = LoanRepaid {
        loan: ctx.loan.key,
        borrower: ctx.loan.data.borrower,
        amount: total_repayment,
    };
    Ok(Repayment { payment, collateral, event })
}

} // verus!
