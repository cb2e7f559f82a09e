use pnft_mortgage_market::accounts::{Account, TokenAccount, Transfer};
use pnft_mortgage_market::contexts::auction::{
    place_bid_handler, settle_handler, PlaceBid, SettleAuction,
};
use pnft_mortgage_market::contexts::create_loan::CreateLoan;
use pnft_mortgage_market::contexts::create_vault::CreateVault;
use pnft_mortgage_market::contexts::deposit_collateral::DepositCollateral;
use pnft_mortgage_market::contexts::initialize::Initialize;
use pnft_mortgage_market::contexts::liquidate::LiquidateLoan;
use pnft_mortgage_market::contexts::repay_loan::RepayLoan;
use pnft_mortgage_market::contexts::{create_vault, deposit_collateral, liquidate, repay_loan};
use pnft_mortgage_market::errors::{ErrorKind, LoanError};
use pnft_mortgage_market::events::{
    AuctionSettled, AuctionStarted, BidPlaced, CollateralDeposited, LoanCreated, LoanLiquidated,
    LoanRepaid,
};
use pnft_mortgage_market::pubkey::Pubkey;
use pnft_mortgage_market::states::auction::{Auction, AuctionStatus};
use pnft_mortgage_market::states::loan::{Loan, LoanStatus};
use pnft_mortgage_market::states::protocol::Protocol;
use pnft_mortgage_market::states::vault::Vault;
use pnft_mortgage_market::{create_loan, initialize};
use std::collections::HashMap;

const BORROWER: u8 = 1;
const LENDER: u8 = 2;
const MINT: u8 = 3;
const USDC: u8 = 4;
const TREASURY: u8 = 5;
const BIDDER: u8 = 6;
const LIQUIDATOR: u8 = 7;
const LOAN: u8 = 10;
const VAULT: u8 = 11;
const AUCTION: u8 = 12;
const PROTOCOL: u8 = 13;
const BORROWER_NFT: u8 = 20;
const VAULT_NFT: u8 = 21;
const BIDDER_NFT: u8 = 22;
const BORROWER_USDC: u8 = 30;
const LENDER_USDC: u8 = 31;
const BIDDER_USDC: u8 = 32;
const TREASURY_USDC: u8 = 33;

fn key(tag: u8) -> Pubkey {
    Pubkey::new_from_array([tag; 32])
}

fn holding(at: u8, mint: u8, owner: u8) -> TokenAccount {
    TokenAccount { key: key(at), mint: key(mint), owner: key(owner) }
}

/// Balances by holding, and who may move each: what the transfer primitive
/// does with the transfers that an operation returns.
struct Ledger {
    balances: HashMap<[u8; 32], u64>,
    owners: HashMap<[u8; 32], [u8; 32]>,
}

impl Ledger {
    fn new() -> Ledger {
        Ledger { balances: HashMap::new(), owners: HashMap::new() }
    }

    fn open(&mut self, at: u8, owner: u8, balance: u64) {
        self.balances.insert([at; 32], balance);
        self.owners.insert([at; 32], [owner; 32]);
    }

    fn balance(&self, at: u8) -> u64 {
        self.balances[&[at; 32]]
    }

    fn apply(&mut self, t: &Transfer) -> bool {
        let from = t.from.to_bytes();
        let to = t.to.to_bytes();
        if self.owners[&from] != t.authority.to_bytes() || self.balances[&from] < t.amount {
            return false;
        }
        *self.balances.get_mut(&from).unwrap() -= t.amount;
        *self.balances.get_mut(&to).unwrap() += t.amount;
        true
    }
}

fn market() -> Account<Protocol> {
    let ctx =
        Initialize { protocol: key(PROTOCOL), authority: key(99), treasury: key(TREASURY), bump: 250 };
    initialize(&ctx).unwrap()
}

fn make_loan(protocol: &mut Account<Protocol>, amount: u64, duration: i64, rate: u16, now: i64) -> Account<Loan> {
    let mut ctx = CreateLoan {
        borrower: key(BORROWER),
        lender: key(LENDER),
        collateral_mint: key(MINT),
        collateral_token: holding(BORROWER_NFT, MINT, BORROWER),
        loan: key(LOAN),
        protocol: *protocol,
        bump: 251,
    };
    let made = create_loan(&mut ctx, amount, duration, rate, now).unwrap();
    *protocol = ctx.protocol;
    made.loan
}

fn make_vault(loan: &Account<Loan>) -> Account<Vault> {
    let ctx = CreateVault {
        borrower: key(BORROWER),
        loan: *loan,
        collateral_mint: key(MINT),
        vault: key(VAULT),
        vault_token_account: holding(VAULT_NFT, MINT, VAULT),
        bump: 252,
    };
    create_vault::handler(&ctx).unwrap()
}

fn deposit_ctx(loan: &Account<Loan>, vault: &Account<Vault>) -> DepositCollateral {
    DepositCollateral {
        borrower: key(BORROWER),
        loan: *loan,
        vault: *vault,
        borrower_token: holding(BORROWER_NFT, MINT, BORROWER),
        vault_token: holding(VAULT_NFT, MINT, VAULT),
    }
}

fn repay_ctx(loan: &Account<Loan>, vault: &Account<Vault>) -> RepayLoan {
    RepayLoan {
        borrower: key(BORROWER),
        lender: key(LENDER),
        loan: *loan,
        vault: *vault,
        borrower_token: holding(BORROWER_NFT, MINT, BORROWER),
        vault_token: holding(VAULT_NFT, MINT, VAULT),
        borrower_usdc: holding(BORROWER_USDC, USDC, BORROWER),
        lender_usdc: holding(LENDER_USDC, USDC, LENDER),
    }
}

fn liquidate_ctx(loan: &Account<Loan>, vault: &Account<Vault>) -> LiquidateLoan {
    LiquidateLoan {
        liquidator: key(LIQUIDATOR),
        loan: *loan,
        vault: *vault,
        auction: key(AUCTION),
        vault_token: holding(VAULT_NFT, MINT, VAULT),
        bump: 253,
    }
}

fn bid_ctx(auction: &Account<Auction>, loan: &Account<Loan>) -> PlaceBid {
    PlaceBid {
        bidder: key(BIDDER),
        auction: *auction,
        loan: *loan,
        bidder_usdc: holding(BIDDER_USDC, USDC, BIDDER),
        treasury_usdc: holding(TREASURY_USDC, USDC, TREASURY),
        treasury: key(TREASURY),
    }
}

fn settle_ctx(auction: &Account<Auction>, loan: &Account<Loan>, vault: &Account<Vault>) -> SettleAuction {
    SettleAuction {
        caller: key(77),
        auction: *auction,
        loan: *loan,
        vault: *vault,
        vault_token: holding(VAULT_NFT, MINT, VAULT),
        winner_token: TokenAccount {
            key: key(BIDDER_NFT),
            mint: key(MINT),
            owner: auction.data.current_bidder,
        },
    }
}

fn ledger() -> Ledger {
    let mut l = Ledger::new();
    l.open(BORROWER_NFT, BORROWER, 1);
    l.open(VAULT_NFT, VAULT, 0);
    l.open(BIDDER_NFT, BIDDER, 0);
    l.open(BORROWER_USDC, BORROWER, 5000);
    l.open(LENDER_USDC, LENDER, 0);
    l.open(BIDDER_USDC, BIDDER, 5000);
    l.open(TREASURY_USDC, TREASURY, 0);
    l
}

#[test]
fn loan_is_created_deposited_and_repaid() {
    let start = 1_700_000_000;
    let mut protocol = market();
    let mut ledger = ledger();

    let mut loan = make_loan(&mut protocol, 1000, 86400, 500, start);
    assert_eq!(loan.data.status, LoanStatus::Active);
    assert_eq!(loan.data.outstanding_amount, 1000);
    assert_eq!(loan.data.start_time, start);
    assert_eq!(loan.data.liquidation_threshold, 8000);
    assert_eq!(protocol.data.total_loans, 1);
    assert_eq!(protocol.data.total_volume, 1000);

    let vault = make_vault(&loan);
    let deposit = deposit_collateral::handler(&deposit_ctx(&loan, &vault)).unwrap();
    assert!(ledger.apply(&deposit.transfer));
    assert_eq!(ledger.balance(VAULT_NFT), 1);
    assert_eq!(ledger.balance(BORROWER_NFT), 0);

    let mut ctx = repay_ctx(&loan, &vault);
    let repayment = repay_loan::handler(&mut ctx, start + 43200).unwrap();
    assert_eq!(repayment.payment.amount, 1000);
    assert_eq!(repayment.event, LoanRepaid { loan: key(LOAN), borrower: key(BORROWER), amount: 1000 });
    assert!(ledger.apply(&repayment.payment));
    assert!(ledger.apply(&repayment.collateral));
    loan = ctx.loan;

    assert_eq!(loan.data.status, LoanStatus::Repaid);
    assert_eq!(loan.data.outstanding_amount, 0);
    assert_eq!(ledger.balance(BORROWER_NFT), 1);
    assert_eq!(ledger.balance(VAULT_NFT), 0);
    assert_eq!(ledger.balance(BORROWER_USDC), 4000);
    assert_eq!(ledger.balance(LENDER_USDC), 1000);
}

#[test]
fn undercollateralized_loan_is_auctioned_and_settled() {
    let start = 1_700_000_000;
    let mut protocol = market();
    let mut ledger = ledger();
    let mut loan = make_loan(&mut protocol, 1001, 86400, 500, start);
    let vault = make_vault(&loan);
    let deposit = deposit_collateral::handler(&deposit_ctx(&loan, &vault)).unwrap();
    assert!(ledger.apply(&deposit.transfer));

    // worth 800 against 1001 owed: 7992 basis points, under the 8000 asked
    let liquidated_at = start + 100;
    let mut ctx = liquidate_ctx(&loan, &vault);
    let liquidation = liquidate::handler(&mut ctx, liquidated_at, 800).unwrap();
    loan = ctx.loan;
    let mut auction = liquidation.auction;
    assert_eq!(loan.data.status, LoanStatus::InAuction);
    assert_eq!(auction.key, key(AUCTION));
    assert_eq!(auction.data.starting_price, 500);
    assert_eq!(auction.data.current_bid, 0);
    assert_eq!(auction.data.current_bidder, Pubkey::default());
    assert_eq!(auction.data.end_time, liquidated_at + 86400);
    assert_eq!(auction.data.status, AuctionStatus::Active);
    assert_eq!(auction.data.loan, key(LOAN));
    assert_eq!(
        liquidation.liquidated,
        LoanLiquidated { loan: key(LOAN), liquidator: key(LIQUIDATOR), collateral_mint: key(MINT) }
    );
    assert_eq!(
        liquidation.started,
        AuctionStarted {
            loan: key(LOAN),
            collateral_mint: key(MINT),
            starting_price: 500,
            end_time: liquidated_at + 86400,
        }
    );

    let mut bid = bid_ctx(&auction, &loan);
    let placed = place_bid_handler(&mut bid, auction.data.starting_price + 1, liquidated_at + 10).unwrap();
    assert!(ledger.apply(&placed.payment));
    auction = bid.auction;
    assert_eq!(auction.data.current_bid, 501);
    assert_eq!(auction.data.current_bidder, key(BIDDER));
    assert_eq!(placed.event, BidPlaced { auction: key(AUCTION), bidder: key(BIDDER), amount: 501 });
    assert_eq!(ledger.balance(TREASURY_USDC), 501);

    let mut early = settle_ctx(&auction, &loan, &vault);
    let refused = settle_handler(&mut early, auction.data.end_time - 1).unwrap_err();
    assert_eq!(refused, LoanError::AuctionStillActive);
    assert_eq!(refused.kind(), ErrorKind::InvalidState);
    assert_eq!(early, settle_ctx(&auction, &loan, &vault));

    let mut settle = settle_ctx(&auction, &loan, &vault);
    let settlement = settle_handler(&mut settle, auction.data.end_time).unwrap();
    assert!(ledger.apply(&settlement.delivery));
    assert_eq!(settle.loan.data.status, LoanStatus::Liquidated);
    assert_eq!(settle.auction.data.status, AuctionStatus::Settled);
    assert_eq!(
        settlement.event,
        AuctionSettled { auction: key(AUCTION), winner: key(BIDDER), winning_bid: 501 }
    );
    assert_eq!(ledger.balance(BIDDER_NFT), 1);
    assert_eq!(ledger.balance(VAULT_NFT), 0);
    // the winning bid stays with the treasury
    assert_eq!(ledger.balance(TREASURY_USDC), 501);
    assert_eq!(ledger.balance(LENDER_USDC), 0);
}

#[test]
fn second_liquidation_of_a_loan_is_refused() {
    let mut protocol = market();
    let loan = make_loan(&mut protocol, 1000, 86400, 500, 0);
    let vault = make_vault(&loan);
    let mut first = liquidate_ctx(&loan, &vault);
    assert!(liquidate::handler(&mut first, 5, 10).is_ok());
    assert_eq!(first.loan.data.status, LoanStatus::InAuction);

    let mut second = liquidate_ctx(&first.loan, &vault);
    second.liquidator = key(78);
    let before = second;
    let refused = liquidate::handler(&mut second, 5, 10).unwrap_err();
    assert_eq!(refused, LoanError::LoanNotActive);
    assert_eq!(refused.kind(), ErrorKind::InvalidState);
    assert_eq!(second, before);
}

#[test]
fn status_moves_only_along_the_lifecycle() {
    let mut protocol = market();
    let loan = make_loan(&mut protocol, 1000, 86400, 500, 0);
    let vault = make_vault(&loan);

    // Active -> Repaid, then nothing more
    let mut repay = repay_ctx(&loan, &vault);
    assert!(repay_loan::handler(&mut repay, 10).is_ok());
    let repaid = repay.loan;
    assert_eq!(repaid.data.status, LoanStatus::Repaid);
    let mut again = repay_ctx(&repaid, &vault);
    assert_eq!(repay_loan::handler(&mut again, 20).unwrap_err().kind(), ErrorKind::InvalidState);
    assert_eq!(again.loan.data.status, LoanStatus::Repaid);
    let mut late = liquidate_ctx(&repaid, &vault);
    assert_eq!(liquidate::handler(&mut late, 1_000_000, 0).unwrap_err().kind(), ErrorKind::InvalidState);
    assert_eq!(late.loan.data.status, LoanStatus::Repaid);
    assert_eq!(
        deposit_collateral::handler(&deposit_ctx(&repaid, &vault)).unwrap_err().kind(),
        ErrorKind::InvalidState
    );

    // Active -> InAuction -> Liquidated, then nothing more
    let mut liq = liquidate_ctx(&loan, &vault);
    let liquidation = liquidate::handler(&mut liq, 5, 10).unwrap();
    let in_auction = liq.loan;
    let mut repay_in_auction = repay_ctx(&in_auction, &vault);
    assert_eq!(
        repay_loan::handler(&mut repay_in_auction, 10).unwrap_err(),
        LoanError::LoanNotActive
    );
    assert_eq!(repay_in_auction.loan.data.status, LoanStatus::InAuction);
    let mut settle = settle_ctx(&liquidation.auction, &in_auction, &vault);
    assert!(settle_handler(&mut settle, liquidation.auction.data.end_time).is_ok());
    assert_eq!(settle.loan.data.status, LoanStatus::Liquidated);
    let mut settle_again = settle_ctx(&settle.auction, &settle.loan, &vault);
    assert_eq!(
        settle_handler(&mut settle_again, liquidation.auction.data.end_time + 1).unwrap_err().kind(),
        ErrorKind::InvalidState
    );
    assert_eq!(settle_again.loan.data.status, LoanStatus::Liquidated);
    let mut repay_liquidated = repay_ctx(&settle.loan, &vault);
    assert_eq!(
        repay_loan::handler(&mut repay_liquidated, 10).unwrap_err().kind(),
        ErrorKind::InvalidState
    );
}

#[test]
fn highest_bid_never_falls_over_a_run_of_bids() {
    let mut protocol = market();
    let loan = make_loan(&mut protocol, 1000, 86400, 500, 0);
    let vault = make_vault(&loan);
    let mut liq = liquidate_ctx(&loan, &vault);
    let liquidation = liquidate::handler(&mut liq, 5, 10).unwrap();
    let mut ctx = bid_ctx(&liquidation.auction, &liq.loan);

    let mut highest = 0;
    for amount in [1u64, 1, 0, 700, 699, 700, 701, 2, u64::MAX, u64::MAX] {
        let before = ctx;
        match place_bid_handler(&mut ctx, amount, 100) {
            Ok(bid) => {
                assert!(amount > highest);
                assert_eq!(bid.payment.amount, amount);
                assert_eq!(ctx.auction.data.current_bid, amount);
            }
            Err(e) => {
                assert!(amount <= highest);
                assert_eq!(e, LoanError::BidTooLow);
                assert_eq!(ctx, before);
            }
        }
        assert!(ctx.auction.data.current_bid >= highest);
        highest = ctx.auction.data.current_bid;
    }
    assert_eq!(highest, u64::MAX);
}

#[test]
fn outbid_bidder_is_not_refunded() {
    let mut protocol = market();
    let mut ledger = ledger();
    ledger.open(40, 41, 900);
    let loan = make_loan(&mut protocol, 1000, 86400, 500, 0);
    let vault = make_vault(&loan);
    let mut liq = liquidate_ctx(&loan, &vault);
    let liquidation = liquidate::handler(&mut liq, 5, 10).unwrap();

    let mut first = bid_ctx(&liquidation.auction, &liq.loan);
    let a = place_bid_handler(&mut first, 600, 50).unwrap();
    assert!(ledger.apply(&a.payment));
    let mut second = bid_ctx(&first.auction, &liq.loan);
    second.bidder = key(41);
    second.bidder_usdc = holding(40, USDC, 41);
    let b = place_bid_handler(&mut second, 601, 60).unwrap();
    assert!(ledger.apply(&b.payment));

    assert_eq!(second.auction.data.current_bidder, key(41));
    assert_eq!(ledger.balance(BIDDER_USDC), 5000 - 600);
    assert_eq!(ledger.balance(40), 900 - 601);
    assert_eq!(ledger.balance(TREASURY_USDC), 1201);
}

#[test]
fn events_of_creation_and_deposit() {
    let mut protocol = market();
    let mut ctx = CreateLoan {
        borrower: key(BORROWER),
        lender: key(LENDER),
        collateral_mint: key(MINT),
        collateral_token: holding(BORROWER_NFT, MINT, BORROWER),
        loan: key(LOAN),
        protocol,
        bump: 251,
    };
    let made = create_loan(&mut ctx, 1000, 86400, 500, 9).unwrap();
    protocol = ctx.protocol;
    assert_eq!(protocol.key, key(PROTOCOL));
    assert_eq!(
        made.event,
        LoanCreated {
            loan: key(LOAN),
            borrower: key(BORROWER),
            lender: key(LENDER),
            collateral_mint: key(MINT),
            amount: 1000,
            duration: 86400,
            interest_rate: 500,
        }
    );
    assert_eq!(made.loan.data.bump, 251);
    let vault = make_vault(&made.loan);
    let deposit = deposit_collateral::handler(&deposit_ctx(&made.loan, &vault)).unwrap();
    assert_eq!(
        deposit.event,
        CollateralDeposited { loan: key(LOAN), collateral_mint: key(MINT), amount: 1 }
    );
    assert_eq!(
        deposit.transfer,
        Transfer { from: key(BORROWER_NFT), to: key(VAULT_NFT), authority: key(BORROWER), amount: 1 }
    );
}
