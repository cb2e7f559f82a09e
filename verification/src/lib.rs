//! A collateralised lending market: a loan secured by one non-fungible asset,
//! repaid with interest or liquidated through an auction.
//!
//! Every operation works on copies of the records it is handed, checks its
//! guards first, and either takes effect as a whole or is refused and
//! changes nothing. An operation moves no funds itself: it returns the
//! transfers that have to go through for it to count, and the events to
//! report once they have.

use vstd::prelude::*;

pub mod accounts;
pub mod contexts;
pub mod errors;
pub mod events;
pub mod lifecycle;
pub mod pubkey;
pub mod states;
pub mod utils;

pub use accounts::{Account, TokenAccount, Transfer};
pub use contexts::{CreateLoan, Initialize, Origination};
pub use errors::{ErrorKind, LoanError};
pub use pubkey::Pubkey;
pub use states::{Loan, LoanStatus, Protocol};

verus! {

/// Sets up the registry of a new market: a fee of 50 basis points, no loans
/// and no volume. It is never refused.
pub fn initialize(ctx: &Initialize) -> (result: Result<Account<Protocol>, LoanError>)
    ensures
        result == Ok::<Account<Protocol>, LoanError>(ctx.initialized()),
{
    contexts::initialize::handler(ctx)
}

/// Creates a loan of `loan_amount` for `duration` seconds at `interest_rate`
/// basis points a year, starting at `now`, with the borrower's asset as
/// collateral.
///
/// On success the result holds the new loan, `Active` and owing the whole
/// principal, and the registry has counted it. A refused request changes
/// nothing.
///
/// The registry's counters have room for the loan.
pub fn create_loan(
    ctx: &mut CreateLoan,
    loan_amount: u64,
    duration: i64,
    interest_rate: u16,
    now: i64,
) -> (result: Result<Origination, LoanError>)
    requires
        old(ctx).rejection(loan_amount, duration, interest_rate) is None ==> old(
            ctx,
        ).protocol.data.total_loans < u64::MAX && old(ctx).protocol.data.total_volume + loan_amount
            <= u64::MAX,
    ensures
        match result {
            Ok(origination) => {
                &&& old(ctx).rejection(loan_amount, duration, interest_rate) is None
                &&& origination == old(ctx).origination(loan_amount, duration, interest_rate, now)
                &&& origination.loan.data.wf()
                &&& *final(ctx) == old(ctx).counted(loan_amount)
            },
            Err(e) => old(ctx).rejection(loan_amount, duration, interest_rate) == Some(e)
                && *final(ctx) == *old(ctx),
        },
        old(ctx).spec_accounts_match() && duration > 0 && interest_rate > 0 && loan_amount > 0
            ==> result is Ok,
{
    contexts::create_loan::handler(ctx, loan_amount, duration, interest_rate, now)
}

} // verus!
