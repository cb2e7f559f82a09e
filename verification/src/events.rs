//! What an operation reports once it has taken effect.

use vstd::prelude::*;
use crate::pubkey::Pubkey;

verus! {

/// A loan was created.
#[derive(Clone, Copy, Debug, PartialEq, Eq)]
pub struct LoanCreated {
    pub loan: Pubkey,
    pub borrower: Pubkey,
    pub lender: Pubkey,
    pub collateral_mint: Pubkey,
    pub amount: u64,
    pub duration: i64,
    pub interest_rate: u16,
}

/// The borrower put the collateral into the vault.
#[derive(Clone, Copy, Debug, PartialEq, Eq)]
pub struct CollateralDeposited {
    pub loan: Pubkey,
    pub collateral_mint: Pubkey,
    pub amount: u64,
}

/// The borrower repaid principal and interest.
#[derive(Clone, Copy, Debug, PartialEq, Eq)]
pub struct LoanRepaid {
    pub loan: Pubkey,
    pub borrower: Pubkey,
    pub amount: u64,
}

/// A loan was put up for liquidation.
#[derive(Clone, Copy, Debug, PartialEq, Eq)]
pub struct LoanLiquidated {
    pub loan: Pubkey,
    pub liquidator: Pubkey,
    pub collateral_mint: Pubkey,
}

/// An auction of a loan's collateral opened.
#[derive(Clone, Copy, Debug, PartialEq, Eq)]
pub struct AuctionStarted {
    pub loan: Pubkey,
    pub collateral_mint: Pubkey,
    pub starting_price: u64,
    pub end_time: i64,
}

/// A bid became the highest bid of an auction.
#[derive(Clone, Copy, Debug, PartialEq, Eq)]
pub struct BidPlaced {
    pub auction: Pubkey,
    pub bidder: Pubkey,
    pub amount: u64,
}

/// An auction closed and the collateral went to the highest bidder.
#[derive(Clone, Copy, Debug, PartialEq, Eq)]
pub struct AuctionSettled {
    pub auction: Pubkey,
    pub winner: Pubkey,
    pub winning_bid: u64,
}

} // verus!
