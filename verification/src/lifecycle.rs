//! What holds of loans and auctions over any run of operations.

use vstd::prelude::*;
use crate::accounts::{Account, Transfer};
use crate::contexts::{DepositCollateral, LiquidateLoan, PlaceBid, RepayLoan, SettleAuction};
use crate::errors::{ErrorKind, LoanError};
use crate::pubkey::Pubkey;
use crate::states::auction::AUCTION_DURATION;
use crate::states::{Auction, AuctionStatus, Loan, LoanStatus};

verus! {

/// No step of a loan's status leads to `Active`, and none leads out of
/// `Repaid` or `Liquidated`: a loan that has left `Active` never comes back,
/// and a loan that is repaid or liquidated stays so.
pub proof fn status_steps_lead_away_from_active(from: LoanStatus, to: LoanStatus)
    ensures
        from.may_become(to) ==> !(to is Active) && !from.is_terminal() && from != to,
{
}

/// A request that concerns a loan, with what it is made with.
pub enum LoanRequest {
    Deposit(DepositCollateral),
    Repay(RepayLoan),
    /// With the time of the request and the value of the collateral.
    Liquidate(LiquidateLoan, i64, u64),
    /// With the amount of the bid and the time of the request.
    Bid(PlaceBid, u64, i64),
    /// With the time of the request.
    Settle(SettleAuction, i64),
}

impl LoanRequest {
    /// The loan as the request finds it.
    pub open spec fn loan_before(self) -> Loan {
        match self {
            LoanRequest::Deposit(ctx) => ctx.loan.data,
            LoanRequest::Repay(ctx) => ctx.loan.data,
            LoanRequest::Liquidate(ctx, _, _) => ctx.loan.data,
            LoanRequest::Bid(ctx, _, _) => ctx.loan.data,
            LoanRequest::Settle(ctx, _) => ctx.loan.data,
        }
    }

    /// Why the request is refused, if it is.
    pub open spec fn rejection(self) -> Option<LoanError> {
        match self {
            LoanRequest::Deposit(ctx) => ctx.rejection(),
            LoanRequest::Repay(ctx) => ctx.rejection(),
            LoanRequest::Liquidate(ctx, now, collateral_value) => ctx.rejection(
                now,
                collateral_value,
            ),
            LoanRequest::Bid(ctx, bid_amount, now) => ctx.rejection(bid_amount, now),
            LoanRequest::Settle(ctx, now) => ctx.rejection(now),
        }
    }

    /// The loan as the request leaves it: as the operation says where the
    /// request is accepted, unchanged where it is refused.
    pub open spec fn loan_after(self) -> Loan {
        if self.rejection() is Some {
            self.loan_before()
        } else {
            match self {
                LoanRequest::Deposit(ctx) => ctx.loan.data,
                LoanRequest::Repay(ctx) => ctx.repaid().loan.data,
                LoanRequest::Liquidate(ctx, _, _) => ctx.liquidated().loan.data,
                LoanRequest::Bid(ctx, bid_amount, _) => ctx.outbid(bid_amount).loan.data,
                LoanRequest::Settle(ctx, _) => ctx.settled().loan.data,
            }
        }
    }

    /// The status that the loan must have for the request, where it must
    /// have one: `Active` for a deposit, a repayment and a liquidation,
    /// `InAuction` for a settlement.
    pub open spec fn needs(self) -> Option<LoanStatus> {
        match self {
            LoanRequest::Deposit(_) => Some(LoanStatus::Active),
            LoanRequest::Repay(_) => Some(LoanStatus::Active),
            LoanRequest::Liquidate(_, _, _) => Some(LoanStatus::Active),
            LoanRequest::Bid(_, _, _) => None,
            LoanRequest::Settle(_, _) => Some(LoanStatus::InAuction),
        }
    }
}

/// Whatever is asked of a loan, its status stays as it is or takes one of
/// the three steps `Active` to `Repaid`, `Active` to `InAuction`,
/// `InAuction` to `Liquidated`; and a request that needs the loan in another
/// status than it has is refused as `InvalidState` and leaves the loan as it
/// is.
pub proof fn loan_status_follows_the_lifecycle(request: LoanRequest)
    ensures
        request.loan_after().status == request.loan_before().status
            || request.loan_before().status.may_become(request.loan_after().status),
        request.loan_before().wf() ==> request.loan_after().wf(),
        request.needs() matches Some(status) && request.loan_before().status != status ==> {
            &&& request.rejection() matches Some(e)
            &&& e.spec_kind() == ErrorKind::InvalidState
            &&& request.loan_after() == request.loan_before()
        },
{
}

/// A repayment of an `Active` loan, signed by the loan's borrower and
/// lender, is accepted where the records and holdings belong together, and
/// refused as `AccountMismatch` where they do not. Accepted, it leaves the
/// loan `Repaid` with nothing outstanding and every other field and record
/// as it was, and asks for two transfers: principal plus interest from the
/// borrower to the lender, and exactly one unit of the collateral from the
/// vault's holding to the borrower's, authorised by the vault's custody
/// authority.
pub proof fn repayment_of_an_active_loan(ctx: RepayLoan, now: i64)
    requires
        ctx.loan.data.status is Active,
        ctx.spec_signers_match(),
    ensures
        ctx.spec_accounts_match() ==> ctx.rejection() is None,
        !ctx.spec_accounts_match() ==> ctx.rejection() == Some(LoanError::AccountMismatch),
        ctx.repaid().loan.data == (Loan {
            status: LoanStatus::Repaid,
            outstanding_amount: 0,
            ..ctx.loan.data
        }),
        ctx.repaid() == (RepayLoan { loan: ctx.repaid().loan, ..ctx }),
        ctx.repaid().loan.key == ctx.loan.key,
        ctx.repayment(now).collateral == (Transfer {
            from: ctx.vault_token.key,
            to: ctx.borrower_token.key,
            authority: ctx.vault.data.authority,
            amount: 1,
        }),
        ctx.repayment(now).payment == (Transfer {
            from: ctx.borrower_usdc.key,
            to: ctx.lender_usdc.key,
            authority: ctx.borrower,
            amount: ctx.loan.data.repayment_at(now) as u64,
        }),
{
}

/// A liquidation of an `Active` loan that is expired or undercollateralised
/// is accepted where the vault and its holding belong to the loan.
/// Accepted, it changes nothing of the loan but its status, to `InAuction`,
/// and opens an `Active` auction for this loan and its asset that starts at
/// half of what the loan owes, has no bid and no bidder, goes with the loan,
/// and closes one day after `now`.
pub proof fn liquidation_of_an_active_loan(ctx: LiquidateLoan, now: i64, collateral_value: u64)
    requires
        ctx.loan.data.status is Active,
        ctx.loan.data.spec_is_liquidatable(now, collateral_value),
        now + AUCTION_DURATION <= i64::MAX,
    ensures
        ctx.spec_accounts_match() ==> ctx.rejection(now, collateral_value) is None,
        !ctx.spec_accounts_match() ==> ctx.rejection(now, collateral_value) == Some(
            LoanError::AccountMismatch,
        ),
        ctx.liquidated().loan.data == (Loan { status: LoanStatus::InAuction, ..ctx.loan.data }),
        ctx.liquidated() == (LiquidateLoan { loan: ctx.liquidated().loan, ..ctx }),
        ctx.opened(now).key == ctx.auction,
        ctx.opened(now).data == (Auction {
            loan: ctx.loan.key,
            collateral_mint: ctx.loan.data.collateral_mint,
            starting_price: (ctx.loan.data.outstanding_amount / 2) as u64,
            current_bid: 0,
            current_bidder: Pubkey::zero(),
            end_time: (now + 86400) as i64,
            status: AuctionStatus::Active,
            bump: ctx.bump,
        }),
        ctx.opened(now).data.end_time > now,
        ctx.opened(now).data.wf(),
        ctx.opened(now).data.goes_with(&ctx.liquidated().loan.data),
        ctx.liquidation(now).auction == ctx.opened(now),
{
}

/// Of two liquidations of one loan, the second is refused as
/// `InvalidState`, whatever it is made with, and leaves the loan
/// `InAuction` as the first left it; no second auction is opened.
pub proof fn second_liquidation_is_refused(
    first: LiquidateLoan,
    now: i64,
    collateral_value: u64,
    second: LiquidateLoan,
    later: i64,
    later_value: u64,
)
    requires
        first.rejection(now, collateral_value) is None,
        second.loan == first.liquidated().loan,
    ensures
        second.rejection(later, later_value) == Some(LoanError::LoanNotActive),
        LoanError::LoanNotActive.spec_kind() == ErrorKind::InvalidState,
        LoanRequest::Liquidate(second, later, later_value).loan_after() == second.loan.data,
        second.loan.data.status is InAuction,
{
}

/// Once a loan is repaid, no repayment, liquidation or deposit is accepted
/// for it again.
pub proof fn repaid_loan_is_closed(
    repayment: RepayLoan,
    again: RepayLoan,
    liquidation: LiquidateLoan,
    now: i64,
    collateral_value: u64,
    deposit: DepositCollateral,
)
    requires
        repayment.rejection() is None,
        again.loan == repayment.repaid().loan,
        liquidation.loan == repayment.repaid().loan,
        deposit.loan == repayment.repaid().loan,
    ensures
        again.rejection() == Some(LoanError::LoanNotActive),
        liquidation.rejection(now, collateral_value) == Some(LoanError::LoanNotActive),
        deposit.rejection() == Some(LoanError::LoanNotActive),
{
}

/// A settlement of an `Active` auction whose loan is `InAuction`, with
/// records and holdings that belong together, is accepted at or after the
/// auction's end and refused as `AuctionStillActive`, of kind
/// `InvalidState`, before it; where they do not belong together it is
/// refused as `AccountMismatch`. Accepted, it leaves the auction `Settled`
/// and changes nothing of the loan but its status, to `Liquidated`, and
/// asks for exactly one unit of the collateral from the vault's holding to
/// the holding of the highest bidder, authorised by the vault's custody
/// authority.
pub proof fn settlement_of_an_auction(ctx: SettleAuction, now: i64)
    requires
        ctx.auction.data.status is Active,
        ctx.loan.data.status is InAuction,
    ensures
        ctx.spec_accounts_match() && now >= ctx.auction.data.end_time ==> ctx.rejection(now)
            is None,
        ctx.spec_accounts_match() && now < ctx.auction.data.end_time ==> ctx.rejection(now)
            == Some(LoanError::AuctionStillActive),
        !ctx.spec_accounts_match() ==> ctx.rejection(now) == Some(LoanError::AccountMismatch),
        LoanError::AuctionStillActive.spec_kind() == ErrorKind::InvalidState,
        ctx.settled().loan.data == (Loan { status: LoanStatus::Liquidated, ..ctx.loan.data }),
        ctx.settled().auction.data == (Auction {
            status: AuctionStatus::Settled,
            ..ctx.auction.data
        }),
        ctx.settled() == (SettleAuction {
            loan: ctx.settled().loan,
            auction: ctx.settled().auction,
            ..ctx
        }),
        ctx.settlement().delivery == (Transfer {
            from: ctx.vault_token.key,
            to: ctx.winner_token.key,
            authority: ctx.vault.data.authority,
            amount: 1,
        }),
        ctx.spec_accounts_match() ==> ctx.winner_token.owner == ctx.auction.data.current_bidder
            && ctx.vault_token.owner == ctx.vault.key,
        ctx.settled().auction.data.goes_with(&ctx.settled().loan.data),
{
}

/// An auction and its loan keep going together through every bid and
/// through the settlement; and no repayment or second liquidation is
/// accepted for a loan whose auction is open or settled.
pub proof fn auction_and_loan_stay_together(
    bid: PlaceBid,
    bid_amount: u64,
    settle: SettleAuction,
    repay: RepayLoan,
    liquidate: LiquidateLoan,
    now: i64,
    collateral_value: u64,
    auction: Auction,
)
    ensures
        bid.auction.data.goes_with(&bid.loan.data) ==> bid.outbid(
            bid_amount,
        ).auction.data.goes_with(&bid.outbid(bid_amount).loan.data),
        settle.rejection(now) is None ==> settle.auction.data.goes_with(&settle.loan.data)
            && settle.settled().auction.data.goes_with(&settle.settled().loan.data),
        auction.goes_with(&repay.loan.data) && !(auction.status is Cancelled)
            ==> repay.rejection() == Some(LoanError::LoanNotActive),
        auction.goes_with(&liquidate.loan.data) && !(auction.status is Cancelled)
            ==> liquidate.rejection(now, collateral_value) == Some(LoanError::LoanNotActive),
{
}

/// An auction that is settled or cancelled takes no bid and no settlement.
pub proof fn closed_auction_is_final(
    bid: PlaceBid,
    bid_amount: u64,
    settle: SettleAuction,
    now: i64,
)
    requires
        !(bid.auction.data.status is Active),
        !(settle.auction.data.status is Active),
    ensures
        bid.rejection(bid_amount, now) == Some(LoanError::AuctionStillActive),
        settle.rejection(now) == Some(LoanError::AuctionStillActive),
        LoanError::AuctionStillActive.spec_kind() == ErrorKind::InvalidState,
{
}

/// On an auction that takes bids at `now`, with records and holdings that
/// belong together, a bid above the highest is accepted, becomes the
/// highest bid and its signer the highest bidder, all else as it was; a bid
/// that does not exceed the highest is refused as `BidTooLow`. Where the
/// records do not belong together the bid is refused as `AccountMismatch`.
pub proof fn bid_on_an_open_auction(ctx: PlaceBid, bid_amount: u64, now: i64)
    requires
        ctx.auction.data.spec_is_active(now),
    ensures
        ctx.spec_accounts_match() && bid_amount > ctx.auction.data.current_bid ==> ctx.rejection(
            bid_amount,
            now,
        ) is None,
        ctx.spec_accounts_match() && bid_amount <= ctx.auction.data.current_bid ==> ctx.rejection(
            bid_amount,
            now,
        ) == Some(LoanError::BidTooLow),
        !ctx.spec_accounts_match() ==> ctx.rejection(bid_amount, now) == Some(
            LoanError::AccountMismatch,
        ),
        LoanError::BidTooLow.spec_kind() == ErrorKind::BidTooLow,
        ctx.outbid(bid_amount).auction.data == (Auction {
            current_bid: bid_amount,
            current_bidder: ctx.bidder,
            ..ctx.auction.data
        }),
        ctx.outbid(bid_amount) == (PlaceBid { auction: ctx.outbid(bid_amount).auction, ..ctx }),
        ctx.bid(bid_amount).payment == (Transfer {
            from: ctx.bidder_usdc.key,
            to: ctx.treasury_usdc.key,
            authority: ctx.bidder,
            amount: bid_amount,
        }),
{
}

/// A bid that does not exceed the highest bid is refused, whatever the
/// auction and the records are.
pub proof fn low_bid_is_refused(ctx: PlaceBid, bid_amount: u64, now: i64)
    requires
        bid_amount <= ctx.auction.data.current_bid,
    ensures
        ctx.rejection(bid_amount, now) is Some,
{
}

/// One attempt to bid: who bids with which holdings, how much, and when.
/// The auction inside the attempt does not count: the attempt is made on the
/// auction as the attempts before it left it.
pub struct BidAttempt {
    pub ctx: PlaceBid,
    pub bid_amount: u64,
    pub now: i64,
}

/// The auction after one attempt: with the bid as its highest if the
/// attempt is accepted, unchanged if it is refused.
pub open spec fn after_bid(auction: Account<Auction>, attempt: BidAttempt) -> Account<Auction> {
    let ctx = PlaceBid { auction, ..attempt.ctx };
    if ctx.rejection(attempt.bid_amount, attempt.now) is None {
        ctx.outbid(attempt.bid_amount).auction
    } else {
        auction
    }
}

/// The auction after a run of attempts, made one after the other.
pub open spec fn after_bids(auction: Account<Auction>, attempts: Seq<BidAttempt>) -> Account<Auction>
    decreases attempts.len(),
{
    if attempts.len() == 0 {
        auction
    } else {
        after_bid(after_bids(auction, attempts.drop_last()), attempts.last())
    }
}

/// One attempt never lowers the highest bid, and an accepted one raises it.
pub proof fn bid_never_lowers_the_highest(auction: Account<Auction>, attempt: BidAttempt)
    ensures
        after_bid(auction, attempt).data.current_bid >= auction.data.current_bid,
        after_bid(auction, attempt) != auction ==> after_bid(auction, attempt).data.current_bid
            == attempt.bid_amount && attempt.bid_amount > auction.data.current_bid,
        auction.data.wf() ==> after_bid(auction, attempt).data.wf(),
{
}

/// Over any run of attempts the highest bid never falls: after the first
/// `j` attempts it is at least what it was after the first `i`, for
/// `i <= j`.
pub proof fn highest_bid_never_falls(
    auction: Account<Auction>,
    attempts: Seq<BidAttempt>,
    i: int,
    j: int,
)
    requires
        0 <= i <= j <= attempts.len(),
    ensures
        after_bids(auction, attempts.take(i)).data.current_bid <= after_bids(
            auction,
            attempts.take(j),
        ).data.current_bid,
    decreases j - i,
{
    if i < j {
        highest_bid_never_falls(auction, attempts, i, j - 1);
        let upto = attempts.take(j);
        assert(upto.drop_last() == attempts.take(j - 1));
        bid_never_lowers_the_highest(after_bids(auction, attempts.take(j - 1)), upto.last());
    }
}

/// Interest is fixed by principal, rate, start and the time it is asked
/// for: two loans that agree in the first three accrue the same interest at
/// the same time, whatever else they hold.
pub proof fn interest_depends_on_principal_rate_and_start(a: Loan, b: Loan, current_time: i64)
    requires
        a.loan_amount == b.loan_amount,
        a.interest_rate == b.interest_rate,
        a.start_time == b.start_time,
    ensures
        a.interest_at(current_time) == b.interest_at(current_time),
        a.repayment_at(current_time) == b.repayment_at(current_time),
{
}

} // verus!
