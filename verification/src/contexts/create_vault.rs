//! Creating the vault that will hold a loan's collateral.

use vstd::prelude::*;
use crate::accounts::{Account, TokenAccount};
use crate::errors::LoanError;
use crate::pubkey::Pubkey;
use crate::states::{Loan, Vault};

verus! {

/// What a vault is created with.
#[derive(Clone, Copy, Debug, PartialEq, Eq)]
pub struct CreateVault {
    /// The party that signed the request.
    pub borrower: Pubkey,
    pub loan: Account<Loan>,
    /// The asset that the vault's holding is of.
    pub collateral_mint: Pubkey,
    /// Key under which the new vault will be stored.
    pub vault: Pubkey,
    /// The vault's holding.
    pub vault_token_account: TokenAccount,
    /// Bump seed of the vault's derived key.
    pub bump: u8,
}

impl CreateVault {
    /// Why the vault is refused, if it is: the signer is not the loan's
    /// borrower, or the holding is not the vault's holding of the asset, in
    /// this order.
    pub open spec fn rejection(&self) -> Option<LoanError> {
        if self.loan.data.borrower != self.borrower {
            Some(LoanError::Unauthorized)
        } else if !self.vault_token_account.spec_is_for(&self.collateral_mint, &self.vault) {
            Some(LoanError::AccountMismatch)
        } else {
            None
        }
    }

    /// Runs the guards of the creation of a vault: the refusal, if there is
    /// one.
    pub fn validate(&self) -> (refusal: Option<LoanError>)
        ensures
            refusal == self.rejection(),
    {
        if self.loan.data.borrower != self.borrower {
            Some(LoanError::Unauthorized)
        } else if !self.vault_token_account.is_for(&self.collateral_mint, &self.vault) {
            Some(LoanError::AccountMismatch)
        } else {
            None
        }
    }

    /// The vault that is created: it serves the loan, is for the loan's
    /// asset, and is its own custody authority.
    pub open spec fn created(&self) -> Account<Vault> {
        Account {
            key: self.vault,
            data: Vault {
                loan: self.loan.key,
                collateral_mint: self.loan.data.collateral_mint,
                authority: self.vault,
                bump: self.bump,
            },
        }
    }
}

/// Creates the vault of the loan. No record that is handed in changes.
pub fn handler(ctx: &CreateVault) -> (result: Result<Account<Vault>, LoanError>)
    ensures
        match result {
            Ok(vault) => ctx.rejection() is None && vault == ctx.created(),
            Err(e) => ctx.rejection() == Some(e),
        },
        ctx.loan.data.borrower == ctx.borrower && ctx.vault_token_account.spec_is_for(
            &ctx.collateral_mint,
            &ctx.vault,
        ) ==> result is Ok,
{
    match ctx.validate() {
        Some(refusal) => {
            return Err(refusal);
        },
        None => {},
    }
    let vault = Vault {
        loan: ctx.loan.key,
        collateral_mint: ctx.loan.data.collateral_mint,
        authority: ctx.vault,
        bump: ctx.bump,
    };
    Ok(Account { key: ctx.vault, data: vault })
}

} // verus!
