//! Why a request is refused.

use vstd::prelude::*;

verus! {

/// The reason a request was refused.
#[derive(Clone, Copy, Debug, PartialEq, Eq, Structural)]
pub enum LoanError {
    /// The asset is not a programmable non-fungible token.
    NotProgrammableNFT,
    /// The loan is not in the status the request needs: `Active` for a
    /// deposit, a repayment and a liquidation, `InAuction` for a settlement.
    LoanNotActive,
    /// The loan is neither expired nor undercollateralised.
    NotLiquidatable,
    /// The collateral is worth too little.
    InsufficientCollateral,
    /// The loan's term has run out.
    LoanExpired,
    /// The valuation of the collateral cannot be used.
    InvalidOraclePrice,
    /// The auction is not in the state the request needs: a bid came after
    /// the auction closed, or a settlement came before it could be closed.
    AuctionStillActive,
    /// The bid does not exceed the highest bid so far.
    BidTooLow,
    /// The liquidator may not liquidate this loan.
    UnauthorizedLiquidation,
    /// The interest rate is outside the lending policy.
    InvalidInterestRate,
    /// The loan's duration is outside the lending policy.
    InvalidLoanDuration,
    /// The principal is outside the lending policy.
    InsufficientLoanAmount,
    /// A party to the request is not the party the loan names in that role.
    Unauthorized,
    /// A record or token holding handed in with the request is not the one
    /// that belongs to the loan, vault or auction it is used with.
    AccountMismatch,
}

/// The classes into which refusals fall.
#[derive(Clone, Copy, Debug, PartialEq, Eq, Structural)]
pub enum ErrorKind {
    /// An amount, duration, rate or valuation is malformed.
    InvalidInput,
    /// The record that the request is keyed to was not supplied.
    NotFound,
    /// A record already exists under the key; raised by a record store.
    AlreadyExists,
    /// A party does not hold the role that the request needs.
    Unauthorized,
    /// The loan or auction is not in the status that the request needs.
    InvalidState,
    /// A balance does not cover a transfer; raised by the transfer primitive.
    InsufficientFunds,
    /// A bid does not exceed the highest bid so far.
    BidTooLow,
}

impl LoanError {
    /// The class of this refusal.
    pub open spec fn spec_kind(self) -> ErrorKind {
        match self {
            LoanError::LoanNotActive
            | LoanError::NotLiquidatable
            | LoanError::AuctionStillActive
            | LoanError::InsufficientCollateral
            | LoanError::LoanExpired => ErrorKind::InvalidState,
            LoanError::InvalidInterestRate
            | LoanError::InvalidLoanDuration
            | LoanError::InsufficientLoanAmount
            | LoanError::InvalidOraclePrice
            | LoanError::NotProgrammableNFT => ErrorKind::InvalidInput,
            LoanError::Unauthorized | LoanError::UnauthorizedLiquidation => ErrorKind::Unauthorized,
            LoanError::AccountMismatch => ErrorKind::NotFound,
            LoanError::BidTooLow => ErrorKind::BidTooLow,
        }
    }

    /// The class of this refusal.
    #[verifier::when_used_as_spec(spec_kind)]
    pub fn kind(self) -> (kind: ErrorKind)
        ensures
            kind == self.spec_kind(),
    {
        match self {
            LoanError::LoanNotActive => ErrorKind::InvalidState,
            LoanError::NotLiquidatable => ErrorKind::InvalidState,
            LoanError::AuctionStillActive => ErrorKind::InvalidState,
            LoanError::InsufficientCollateral => ErrorKind::InvalidState,
            LoanError::LoanExpired => ErrorKind::InvalidState,
            LoanError::InvalidInterestRate => ErrorKind::InvalidInput,
            LoanError::InvalidLoanDuration => ErrorKind::InvalidInput,
            LoanError::InsufficientLoanAmount => ErrorKind::InvalidInput,
            LoanError::InvalidOraclePrice => ErrorKind::InvalidInput,
            LoanError::NotProgrammableNFT => ErrorKind::InvalidInput,
            LoanError::Unauthorized => ErrorKind::Unauthorized,
            LoanError::UnauthorizedLiquidation => ErrorKind::Unauthorized,
            LoanError::AccountMismatch => ErrorKind::NotFound,
            LoanError::BidTooLow => ErrorKind::BidTooLow,
        }
    }

    /// The text shown for this refusal.
    pub open spec fn message_text(self) -> Seq<char> {
        match self {
            LoanError::NotProgrammableNFT => "Asset is not a programmable NFT"@,
            LoanError::LoanNotActive => "Loan is not active"@,
            LoanError::NotLiquidatable => "Loan is not liquidatable"@,
            LoanError::InsufficientCollateral => "Insufficient collateral value"@,
            LoanError::LoanExpired => "Loan has expired"@,
            LoanError::InvalidOraclePrice => "Invalid oracle price"@,
            LoanError::AuctionStillActive => "Auction is still active"@,
            LoanError::BidTooLow => "Bid amount too low"@,
            LoanError::UnauthorizedLiquidation => "Unauthorized liquidation attempt"@,
            LoanError::InvalidInterestRate => "Invalid interest rate"@,
            LoanError::InvalidLoanDuration => "Invalid loan duration"@,
            LoanError::InsufficientLoanAmount => "Insufficient loan amount"@,
            LoanError::Unauthorized => "Signer does not hold the required role"@,
            LoanError::AccountMismatch => "Account does not belong to this loan"@,
        }
    }

    /// The text shown for this refusal.
    pub fn message(&self) -> (text: String)
        ensures
            text@ == self.message_text(),
    {
        match self {
            LoanError::NotProgrammableNFT => "Asset is not a programmable NFT".to_owned(),
            LoanError::LoanNotActive => "Loan is not active".to_owned(),
            LoanError::NotLiquidatable => "Loan is not liquidatable".to_owned(),
            LoanError::InsufficientCollateral => "Insufficient collateral value".to_owned(),
            LoanError::LoanExpired => "Loan has expired".to_owned(),
            LoanError::InvalidOraclePrice => "Invalid oracle price".to_owned(),
            LoanError::AuctionStillActive => "Auction is still active".to_owned(),
            LoanError::BidTooLow => "Bid amount too low".to_owned(),
            LoanError::UnauthorizedLiquidation => "Unauthorized liquidation attempt".to_owned(),
            LoanError::InvalidInterestRate => "Invalid interest rate".to_owned(),
            LoanError::InvalidLoanDuration => "Invalid loan duration".to_owned(),
            LoanError::InsufficientLoanAmount => "Insufficient loan amount".to_owned(),
            LoanError::Unauthorized => "Signer does not hold the required role".to_owned(),
            LoanError::AccountMismatch => "Account does not belong to this loan".to_owned(),
        }
    }
}

} // verus!
