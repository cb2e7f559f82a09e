//! Depositing the collateral of a loan into its vault.

use vstd::prelude::*;
use crate::accounts::{Account, TokenAccount, Transfer};
use crate::errors::LoanError;
use crate::events::CollateralDeposited;
use crate::pubkey::Pubkey;
use crate::states::{Loan, LoanStatus, Vault};

verus! {

/// What a deposit is made with.
#[derive(Clone, Copy, Debug, PartialEq, Eq)]
pub struct DepositCollateral {
    /// The party that signed the request.
    pub borrower: Pubkey,
    pub loan: Account<Loan>,
    pub vault: Account<Vault>,
    /// Where the borrower holds the collateral.
    pub borrower_token: TokenAccount,
    /// Where the vault will keep it.
    pub vault_token: TokenAccount,
}

/// What a deposit asks for and reports.
#[derive(Clone, Copy, Debug, PartialEq, Eq)]
pub struct Deposit {
    /// One unit of the collateral, from the borrower to the vault.
    pub transfer: Transfer,
    pub event: CollateralDeposited,
}

impl DepositCollateral {
    /// The vault is the loan's, and the two holdings are of the loan's
    /// asset and belong to the borrower and to the vault.
    pub open spec fn spec_accounts_match(&self) -> bool {
        &&& self.vault.data.loan == self.loan.key
        &&& self.borrower_token.spec_is_for(&self.loan.data.collateral_mint, &self.borrower)
        &&& self.vault_token.spec_is_for(&self.loan.data.collateral_mint, &self.vault.key)
    }

    /// Whether the records and holdings handed in belong together.
    #[verifier::when_used_as_spec(spec_accounts_match)]
    pub fn accounts_match(&self) -> (yes: bool)
        ensures
            yes == self.spec_accounts_match(),
    {
        self.vault.data.loan == self.loan.key && self.borrower_token.is_for(
            &self.loan.data.collateral_mint,
            &self.borrower,
        ) && self.vault_token.is_for(&self.loan.data.collateral_mint, &self.vault.key)
    }

    /// Why the deposit is refused, if it is: the loan is not `Active`, the
    /// signer is not the loan's borrower, or a record or holding is not the
    /// loan's, in this order.
    pub open spec fn rejection(&self) -> Option<LoanError> {
        if !(self.loan.data.status is Active) {
            Some(LoanError::LoanNotActive)
        } else if self.loan.data.borrower != self.borrower {
            Some(LoanError::Unauthorized)
        } else if !self.spec_accounts_match() {
            Some(LoanError::AccountMismatch)
        } else {
            None
        }
    }

    /// Runs the guards of a deposit: the refusal, if there is one.
    pub fn validate(&self) -> (refusal: Option<LoanError>)
        ensures
            refusal == self.rejection(),
    {
        if self.loan.data.status != LoanStatus::Active {
            Some(LoanError::LoanNotActive)
        } else if self.loan.data.borrower != self.borrower {
            Some(LoanError::Unauthorized)
        } else if !self.accounts_match() {
            Some(LoanError::AccountMismatch)
        } else {
            None
        }
    }

    /// The transfer and the report of the deposit.
    pub open spec fn deposit(&self) -> Deposit {
        Deposit {
            transfer: Transfer {
                from: self.borrower_token.key,
                to: self.vault_token.key,
                authority: self.borrower,
                amount: 1,
            },
            event: CollateralDeposited {
                loan: self.loan.key,
                collateral_mint: self.loan.data.collateral_mint,
                amount: 1,
            },
        }
    }
}

/// Deposits the collateral of the loan into its vault.
///
/// On success the result holds the transfer of exactly one unit of the
/// collateral from the borrower to the vault. No record changes.
pub fn handler(ctx: &DepositCollateral) -> (result: Result<Deposit, LoanError>)
    ensures
        match result {
            Ok(deposit) => ctx.rejection() is None && deposit == ctx.deposit(),
            Err(e) => ctx.rejection() == Some(e),
        },
        ctx.loan.data.status is Active && ctx.loan.data.borrower == ctx.borrower
            && ctx.spec_accounts_match() ==> result is Ok,
        !(ctx.loan.data.status is Active) ==> result == Err::<Deposit, LoanError>(
            LoanError::LoanNotActive,
        ),
{
    match ctx.validate() {
        Some(refusal) => {
            return Err(refusal);
        },
        None => {},
    }
    let transfer = Transfer {
        from: ctx.borrower_token.key,
        to: ctx.vault_token.key,
        authority: ctx.borrower,
        amount: 1,
    };
    let event = CollateralDeposited {
        loan: ctx.loan.key,
        collateral_mint: ctx.loan.data.collateral_mint,
        amount: 1,
    };
    Ok(Deposit { transfer, event })
}

} // verus!
