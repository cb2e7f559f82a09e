//! Bidding in an auction and settling it.

use vstd::prelude::*;
use crate::accounts::{Account, TokenAccount, Transfer};
use crate::errors::{ErrorKind, LoanError};
use crate::events::{AuctionSettled, BidPlaced};
use crate::pubkey::Pubkey;
use crate::states::{Auction, AuctionStatus, Loan, LoanStatus, Vault};

verus! {

/// What a bid is made with.
#[derive(Clone, Copy, Debug, PartialEq, Eq)]
pub struct PlaceBid {
    /// The party that signed the bid.
    pub bidder: Pubkey,
    pub auction: Account<Auction>,
    pub loan: Account<Loan>,
    /// Where the bidder pays from.
    pub bidder_usdc: TokenAccount,
    /// Where the treasury is paid.
    pub treasury_usdc: TokenAccount,
    /// The account that receives the bids.
    pub treasury: Pubkey,
}

/// What an accepted bid asks for and reports.
#[derive(Clone, Copy, Debug, PartialEq, Eq)]
pub struct Bid {
    /// The bid amount, from the bidder to the treasury.
    pub payment: Transfer,
    pub event: BidPlaced,
}

impl PlaceBid {
    /// The loan is the one that the auction liquidates, and the two payment
    /// holdings belong to the bidder and to the treasury.
    pub open spec fn spec_accounts_match(&self) -> bool {
        &&& self.loan.key == self.auction.data.loan
        &&& self.bidder_usdc.spec_is_owned_by(&self.bidder)
        &&& self.treasury_usdc.spec_is_owned_by(&self.treasury)
    }

    /// Whether the records and holdings handed in belong together.
    #[verifier::when_used_as_spec(spec_accounts_match)]
    pub fn accounts_match(&self) -> (yes: bool)
        ensures
            yes == self.spec_accounts_match(),
    {
        self.loan.key == self.auction.data.loan && self.bidder_usdc.is_owned_by(&self.bidder)
            && self.treasury_usdc.is_owned_by(&self.treasury)
    }

    /// Why a bid of `bid_amount` at `now` is refused, if it is: the auction
    /// is not `Active`, a record or holding does not belong, bidding has
    /// closed, or the bid does not exceed the highest bid, in this order.
    pub open spec fn rejection(&self, bid_amount: u64, now: i64) -> Option<LoanError> {
        if !(self.auction.data.status is Active) {
            Some(LoanError::AuctionStillActive)
        } else if !self.spec_accounts_match() {
            Some(LoanError::AccountMismatch)
        } else if !self.auction.data.spec_is_active(now) {
            Some(LoanError::AuctionStillActive)
        } else if bid_amount <= self.auction.data.current_bid {
            Some(LoanError::BidTooLow)
        } else {
            None
        }
    }

    /// Runs the guards of a bid of `bid_amount` at `now`: the refusal, if
    /// there is one.
    pub fn validate(&self, bid_amount: u64, now: i64) -> (refusal: Option<LoanError>)
        ensures
            refusal == self.rejection(bid_amount, now),
    {
        if self.auction.data.status != AuctionStatus::Active {
            Some(LoanError::AuctionStillActive)
        } else if !self.accounts_match() {
            Some(LoanError::AccountMismatch)
        } else if !self.auction.data.is_active(now) {
            Some(LoanError::AuctionStillActive)
        } else if bid_amount <= self.auction.data.current_bid {
            Some(LoanError::BidTooLow)
        } else {
            None
        }
    }

    /// The transfer and the report of an accepted bid of `bid_amount`.
    pub open spec fn bid(&self, bid_amount: u64) -> Bid {
        Bid {
            payment: Transfer {
                from: self.bidder_usdc.key,
                to: self.treasury_usdc.key,
                authority: self.bidder,
                amount: bid_amount,
            },
            event: BidPlaced { auction: self.auction.key, bidder: self.bidder, amount: bid_amount },
        }
    }

    /// The records after an accepted bid of `bid_amount`: it is the
    /// auction's highest bid and its bidder the highest bidder; all else is
    /// as before.
    pub open spec fn outbid(&self, bid_amount: u64) -> PlaceBid {
        PlaceBid {
            auction: Account {
                key: self.auction.key,
                data: Auction {
                    current_bid: bid_amount,
                    current_bidder: self.bidder,
                    ..self.auction.data
                },
            },
            ..*self
        }
    }
}

/// Places a bid of `bid_amount` at time `now`.
///
/// On success the bid is the auction's highest, and the result holds the
/// payment of the bid to the treasury. The bidder who is outbid gets no
/// refund from this operation. A refused request changes nothing.
pub fn place_bid_handler(ctx: &mut PlaceBid, bid_amount: u64, now: i64) -> (result: Result<
    Bid,
    LoanError,
>)
    ensures
        match result {
            Ok(bid) => {
                &&& old(ctx).rejection(bid_amount, now) is None
                &&& bid == old(ctx).bid(bid_amount)
                &&& *final(ctx) == old(ctx).outbid(bid_amount)
            },
            Err(e) => old(ctx).rejection(bid_amount, now) == Some(e) && *final(ctx) == *old(ctx),
        },
        old(ctx).auction.data.spec_is_active(now) && old(ctx).spec_accounts_match() && bid_amount
            > old(ctx).auction.data.current_bid ==> result is Ok,
        bid_amount <= old(ctx).auction.data.current_bid ==> result is Err && *final(ctx) == *old(
            ctx,
        ),
        bid_amount <= old(ctx).auction.data.current_bid && old(ctx).auction.data.spec_is_active(now)
            && old(ctx).spec_accounts_match() ==> result == Err::<Bid, LoanError>(
            LoanError::BidTooLow,
        ),
        final(ctx).auction.data.current_bid >= old(ctx).auction.data.current_bid,
        final(ctx).loan == old(ctx).loan,
        old(ctx).auction.data.wf() ==> final(ctx).auction.data.wf(),
{
    match ctx.validate(bid_amount, now) {
        Some(refusal) => {
            return Err(refusal);
        },
        None => {},
    }
    let payment = Transfer {
        from: ctx.bidder_usdc.key,
        to: ctx.treasury_usdc.key,
        authority: ctx.bidder,
        amount: bid_amount,
    };

    ctx.auction.data.current_bid = bid_amount;
    ctx.auction.data.current_bidder = ctx.bidder;

    let event = BidPlaced { auction: ctx.auction.key, bidder: ctx.bidder, amount: bid_amount };
    Ok(Bid { payment, event })
}

/// What an auction is settled with.
#[derive(Clone, Copy, Debug, PartialEq, Eq)]
pub struct SettleAuction {
    /// The party that asks for the settlement; anyone may.
    pub caller: Pubkey,
    pub auction: Account<Auction>,
    pub loan: Account<Loan>,
    pub vault: Account<Vault>,
    /// Where the vault keeps the collateral.
    pub vault_token: TokenAccount,
    /// Where the highest bidder receives the collateral.
    pub winner_token: TokenAccount,
}

/// What a settlement asks for and reports.
#[derive(Clone, Copy, Debug, PartialEq, Eq)]
pub struct Settlement {
    /// The collateral, from the vault to the highest bidder.
    pub delivery: Transfer,
    pub event: AuctionSettled,
}

impl SettleAuction {
    /// The loan is the one that the auction liquidates, the vault is the
    /// loan's, and the two collateral holdings are of the auctioned asset
    /// and belong to the vault and to the highest bidder.
    pub open spec fn spec_accounts_match(&self) -> bool {
        &&& self.loan.key == self.auction.data.loan
        &&& self.vault.data.loan == self.loan.key
        &&& self.vault_token.spec_is_for(&self.auction.data.collateral_mint, &self.vault.key)
        &&& self.winner_token.spec_is_for(
            &self.auction.data.collateral_mint,
            &self.auction.data.current_bidder,
        )
    }

    /// Whether the records and holdings handed in belong together.
    #[verifier::when_used_as_spec(spec_accounts_match)]
    pub fn accounts_match(&self) -> (yes: bool)
        ensures
            yes == self.spec_accounts_match(),
    {
        self.loan.key == self.auction.data.loan && self.vault.data.loan == self.loan.key
            && self.vault_token.is_for(&self.auction.data.collateral_mint, &self.vault.key)
            && self.winner_token.is_for(
            &self.auction.data.collateral_mint,
            &self.auction.data.current_bidder,
        )
    }

    /// Why a settlement at `now` is refused, if it is: the auction is not
    /// `Active`, the loan is not `InAuction`, a record or holding does not
    /// belong, or bidding has not closed yet, in this order.
    pub open spec fn rejection(&self, now: i64) -> Option<LoanError> {
        if !(self.auction.data.status is Active) {
            Some(LoanError::AuctionStillActive)
        } else if !(self.loan.data.status is InAuction) {
            Some(LoanError::LoanNotActive)
        } else if !self.spec_accounts_match() {
            Some(LoanError::AccountMismatch)
        } else if self.auction.data.spec_is_active(now) {
            Some(LoanError::AuctionStillActive)
        } else {
            None
        }
    }

    /// Runs the guards of a settlement at `now`: the refusal, if there is
    /// one.
    pub fn validate(&self, now: i64) -> (refusal: Option<LoanError>)
        ensures
            refusal == self.rejection(now),
    {
        if self.auction.data.status != AuctionStatus::Active {
            Some(LoanError::AuctionStillActive)
        } else if self.loan.data.status != LoanStatus::InAuction {
            Some(LoanError::LoanNotActive)
        } else if !self.accounts_match() {
            Some(LoanError::AccountMismatch)
        } else if self.auction.data.is_active(now) {
            Some(LoanError::AuctionStillActive)
        } else {
            None
        }
    }

    /// The transfer and the report of a settlement.
    pub open spec fn settlement(&self) -> Settlement {
        Settlement {
            delivery: Transfer {
                from: self.vault_token.key,
                to: self.winner_token.key,
                authority: self.vault.data.authority,
                amount: 1,
            },
            event: AuctionSettled {
                auction: self.auction.key,
                winner: self.auction.data.current_bidder,
                winning_bid: self.auction.data.current_bid,
            },
        }
    }

    /// The records after the settlement: the auction is `Settled` and the
    /// loan `Liquidated`; all else is as before.
    pub open spec fn settled(&self) -> SettleAuction {
        SettleAuction {
            auction: Account {
                key: self.auction.key,
                data: Auction { status: AuctionStatus::Settled, ..self.auction.data },
            },
            loan: Account {
                key: self.loan.key,
                data: Loan { status: LoanStatus::Liquidated, ..self.loan.data },
            },
            ..*self
        }
    }
}

/// Settles the auction at time `now`. The auction must be `Active` and
/// ended, and its loan `InAuction`.
///
/// On success the auction is `Settled`, the loan `Liquidated`, and the
/// result holds the delivery of the collateral to the highest bidder. The
/// winning bid stays with the treasury. A refused request changes nothing.
pub fn settle_handler(ctx: &mut SettleAuction, now: i64) -> (result: Result<Settlement, LoanError>)
    ensures
        match result {
            Ok(settlement) => {
                &&& old(ctx).rejection(now) is None
                &&& settlement == old(ctx).settlement()
                &&& *final(ctx) == old(ctx).settled()
            },
            Err(e) => old(ctx).rejection(now) == Some(e) && *final(ctx) == *old(ctx),
        },
        old(ctx).auction.data.status is Active && old(ctx).loan.data.status is InAuction && old(
            ctx,
        ).spec_accounts_match() && now >= old(ctx).auction.data.end_time ==> result is Ok,
        !(old(ctx).loan.data.status is InAuction) ==> {
            &&& result matches Err(e)
            &&& e.spec_kind() == ErrorKind::InvalidState
            &&& *final(ctx) == *old(ctx)
        },
        final(ctx).loan.data.status == old(ctx).loan.data.status || old(
            ctx,
        ).loan.data.status.may_become(final(ctx).loan.data.status),
        old(ctx).loan.data.wf() ==> final(ctx).loan.data.wf(),
        old(ctx).auction.data.goes_with(&old(ctx).loan.data) ==> final(ctx).auction.data.goes_with(
            &final(ctx).loan.data,
        ),
{
    match ctx.validate(now) {
        Some(refusal) => {
            return Err(refusal);
        },
        None => {},
    }
    let delivery = Transfer {
        from: ctx.vault_token.key,
        to: ctx.winner_token.key,
        authority: ctx.vault.data.authority,
        amount: 1,
    };

    ctx.auction.data.status = AuctionStatus::Settled;
    ctx.loan.data.status = LoanStatus::Liquidated;

    let event = AuctionSettled {
        auction: ctx.auction.key,
        winner: ctx.auction.data.current_bidder,
        winning_bid: ctx.auction.data.current_bid,
    };
    Ok(Settlement { delivery, event })
}

} // verus!
