//! The operations of the market, each with the records it works on.

pub mod auction;
pub mod create_loan;
pub mod create_vault;
pub mod deposit_collateral;
pub mod initialize;
pub mod liquidate;
pub mod repay_loan;

pub use auction::{place_bid_handler, settle_handler, Bid, PlaceBid, SettleAuction, Settlement};
pub use create_loan::{CreateLoan, Origination};
pub use create_vault::CreateVault;
pub use deposit_collateral::{Deposit, DepositCollateral};
pub use initialize::Initialize;
pub use liquidate::{LiquidateLoan, Liquidation};
pub use repay_loan::{RepayLoan, Repayment};
