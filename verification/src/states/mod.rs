//! The records the market keeps.

pub mod auction;
pub mod loan;
pub mod protocol;
pub mod vault;

pub use auction::{Auction, AuctionStatus};
pub use loan::{Loan, LoanStatus};
pub use protocol::Protocol;
pub use vault::Vault;
