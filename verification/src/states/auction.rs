//! The sale of a defaulted loan's collateral.

use vstd::prelude::*;
use crate::pubkey::Pubkey;
use crate::states::loan::Loan;

verus! {

/// Where an auction stands. An auction starts `Active`; `Settled` and
/// `Cancelled` are final.
#[derive(Clone, Copy, Debug, PartialEq, Eq, Structural)]
pub enum AuctionStatus {
    Active,
    Settled,
    Cancelled,
}

/// How long an auction takes bids, in seconds.
pub const AUCTION_DURATION: i64 = 86400;

/// The auction of the collateral of one loan.
#[derive(Clone, Copy, Debug, PartialEq, Eq)]
pub struct Auction {
    /// Key of the loan that is being liquidated.
    pub loan: Pubkey,
    pub collateral_mint: Pubkey,
    pub starting_price: u64,
    /// The highest bid so far; zero while there is none.
    pub current_bid: u64,
    /// Who made the highest bid; the zero address while there is none.
    pub current_bidder: Pubkey,
    /// When bidding closes, in seconds.
    pub end_time: i64,
    pub status: AuctionStatus,
    /// Bump seed of the record's derived key.
    pub bump: u8,
}

impl Auction {
    /// Bytes a stored auction takes.
    pub const LEN: usize = 32 + 32 + 8 + 8 + 32 + 8 + 1 + 1;

    /// What holds of every auction the market opens and keeps: no bidder is
    /// recorded before the first bid.
    pub open spec fn wf(&self) -> bool {
        self.current_bid == 0 ==> self.current_bidder == Pubkey::zero()
    }

    /// The auction and the loan it liquidates go together: while the
    /// auction is `Active` the loan is `InAuction`, and once it is `Settled`
    /// the loan is `Liquidated`. A liquidation opens its auction so, and
    /// bids and the settlement keep it so.
    pub open spec fn goes_with(&self, loan: &Loan) -> bool {
        match self.status {
            AuctionStatus::Active => loan.status is InAuction,
            AuctionStatus::Settled => loan.status is Liquidated,
            AuctionStatus::Cancelled => true,
        }
    }

    /// The auction takes bids at `current_time`.
    pub open spec fn spec_is_active(&self, current_time: i64) -> bool {
        self.status is Active && current_time < self.end_time
    }

    /// Whether the auction takes bids at `current_time`: it is `Active` and
    /// its end has not come.
    #[verifier::when_used_as_spec(spec_is_active)]
    pub fn is_active(&self, current_time: i64) -> (yes: bool)
        ensures
            yes == self.spec_is_active(current_time),
    {
        self.status == AuctionStatus::Active && current_time < self.end_time
    }
}

} // verus!
