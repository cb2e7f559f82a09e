//! Liquidating a loan: a loan that is expired or undercollateralised is put
//! up for auction.

use vstd::prelude::*;
use crate::accounts::{Account, TokenAccount};
use crate::errors::LoanError;
use crate::events::{AuctionStarted, LoanLiquidated};
use crate::pubkey::Pubkey;
use crate::states::auction::AUCTION_DURATION;
use crate::states::{Auction, AuctionStatus, Loan, LoanStatus, Vault};

verus! {

/// What a liquidation is made with.
#[derive(Clone, Copy, Debug, PartialEq, Eq)]
pub struct LiquidateLoan {
    /// The party that asks for the liquidation.
    pub liquidator: Pubkey,
    pub loan: Account<Loan>,
    pub vault: Account<Vault>,
    /// Key under which the new auction will be stored.
    pub auction: Pubkey,
    /// Where the vault keeps the collateral.
    pub vault_token: TokenAccount,
    /// Bump seed of the auction's derived key.
    pub bump: u8,
}

/// What a liquidation creates and reports.
#[derive(Clone, Copy, Debug, PartialEq, Eq)]
pub struct Liquidation {
    /// The auction that was opened.
    pub auction: Account<Auction>,
    pub liquidated: LoanLiquidated,
    pub started: AuctionStarted,
}

impl LiquidateLoan {
    /// The vault is the loan's, and the collateral holding is of the loan's
    /// asset and belongs to the vault.
    pub open spec fn spec_accounts_match(&self) -> bool {
        &&& self.vault.data.loan == self.loan.key
        &&& self.vault_token.spec_is_for(&self.loan.data.collateral_mint, &self.vault.key)
    }

    /// Whether the records and the holding handed in belong together.
    #[verifier::when_used_as_spec(spec_accounts_match)]
    pub fn accounts_match(&self) -> (yes: bool)
        ensures
            yes == self.spec_accounts_match(),
    {
        self.vault.data.loan == self.loan.key && self.vault_token.is_for(
            &self.loan.data.collateral_mint,
            &self.vault.key,
        )
    }

    /// Why the liquidation is refused at `now` with the collateral worth
    /// `collateral_value`, if it is: the loan is not `Active`, a record or
    /// holding is not the loan's, or the loan is not liquidatable, in this
    /// order.
    pub open spec fn rejection(&self, now: i64, collateral_value: u64) -> Option<LoanError> {
        if !(self.loan.data.status is Active) {
            Some(LoanError::LoanNotActive)
        } else if !self.spec_accounts_match() {
            Some(LoanError::AccountMismatch)
        } else if !self.loan.data.spec_is_liquidatable(now, collateral_value) {
            Some(LoanError::NotLiquidatable)
        } else {
            None
        }
    }

    /// Runs the guards of a liquidation at `now` with the collateral worth
    /// `collateral_value`: the refusal, if there is one.
    pub fn validate(&self, now: i64, collateral_value: u64) -> (refusal: Option<LoanError>)
        ensures
            refusal == self.rejection(now, collateral_value),
    {
        if self.loan.data.status != LoanStatus::Active {
            Some(LoanError::LoanNotActive)
        } else if !self.accounts_match() {
            Some(LoanError::AccountMismatch)
        } else if !self.loan.data.is_liquidatable(now, collateral_value) {
            Some(LoanError::NotLiquidatable)
        } else {
            None
        }
    }

    /// The auction that a liquidation at `now` opens: it starts at half of
    /// what the loan owes, has no bid and no bidder, and closes one day
    /// after `now`.
    pub open spec fn opened(&self, now: i64) -> Account<Auction> {
        Account {
            key: self.auction,
            data: Auction {
                loan: self.loan.key,
                collateral_mint: self.loan.data.collateral_mint,
                starting_price: self.loan.data.outstanding_amount / 2,
                current_bid: 0,
                current_bidder: Pubkey::zero(),
                end_time: (now + AUCTION_DURATION) as i64,
                status: AuctionStatus::Active,
                bump: self.bump,
            },
        }
    }

    /// The auction and the reports of a liquidation at `now`.
    pub open spec fn liquidation(&self, now: i64) -> Liquidation {
        Liquidation {
            auction: self.opened(now),
            liquidated: LoanLiquidated {
                loan: self.loan.key,
                liquidator: self.liquidator,
                collateral_mint: self.loan.data.collateral_mint,
            },
            started: AuctionStarted {
                loan: self.loan.key,
                collateral_mint: self.loan.data.collateral_mint,
                starting_price: self.loan.data.outstanding_amount / 2,
                end_time: (now + AUCTION_DURATION) as i64,
            },
        }
    }

    /// The records after the liquidation: the loan is `InAuction`; all else
    /// is as before.
    pub open spec fn liquidated(&self) -> LiquidateLoan {
        LiquidateLoan {
            loan: Account {
                key: self.loan.key,
                data: Loan { status: LoanStatus::InAuction, ..self.loan.data },
            },
            ..*self
        }
    }
}

/// Liquidates the loan at time `now`, with the collateral appraised at
/// `collateral_value`.
///
/// On success the loan is `InAuction` and the result holds the new auction.
/// A refused request changes nothing.
///
/// One day after `now` is a time that fits in 64 bits.
pub fn handler(ctx: &mut LiquidateLoan, now: i64, collateral_value: u64) -> (result: Result<
    Liquidation,
    LoanError,
>)
    requires
        old(ctx).rejection(now, collateral_value) is None ==> now + AUCTION_DURATION <= i64::MAX,
    ensures
        match result {
            Ok(liquidation) => {
                &&& old(ctx).rejection(now, collateral_value) is None
                &&& liquidation == old(ctx).liquidation(now)
                &&& *final(ctx) == old(ctx).liquidated()
            },
            Err(e) => old(ctx).rejection(now, collateral_value) == Some(e) && *final(ctx) == *old(
                ctx,
            ),
        },
        old(ctx).loan.data.status is Active && old(ctx).spec_accounts_match() && old(
            ctx,
        ).loan.data.spec_is_liquidatable(now, collateral_value) ==> result is Ok,
        !(old(ctx).loan.data.status is Active) ==> result == Err::<Liquidation, LoanError>(
            LoanError::LoanNotActive,
        ),
        final(ctx).loan.data.status == old(ctx).loan.data.status || old(
            ctx,
        ).loan.data.status.may_become(final(ctx).loan.data.status),
        old(ctx).loan.data.wf() ==> final(ctx).loan.data.wf(),
        result matches Ok(liquidation) ==> liquidation.auction.data.wf()
            && liquidation.auction.data.goes_with(&final(ctx).loan.data),
{
    match ctx.validate(now, collateral_value) {
        Some(refusal) => {
            return Err(refusal);
        },
        None => {},
    }
    let auction = Auction {
        loan: ctx.loan.key,
        collateral_mint: ctx.loan.data.collateral_mint,
        starting_price: ctx.loan.data.outstanding_amount / 2,
        current_bid: 0,
        current_bidder: Pubkey::default(),
        end_time: now + AUCTION_DURATION,
        status: AuctionStatus::Active,
        bump: ctx.bump,
    };

    ctx.loan.data.status = LoanStatus::InAuction;

    let liquidated = LoanLiquidated {
        loan: ctx.loan.key,
        liquidator: ctx.liquidator,
        collateral_mint: ctx.loan.data.collateral_mint,
    };
    let started = AuctionStarted {
        loan: ctx.loan.key,
        collateral_mint: ctx.loan.data.collateral_mint,
        starting_price: auction.starting_price,
        end_time: auction.end_time,
    };
    Ok(Liquidation { auction: Account { key: ctx.auction, data: auction }, liquidated, started })
}

} // verus!
