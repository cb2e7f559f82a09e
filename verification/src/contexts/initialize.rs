//! Setting up the market's registry.

use vstd::prelude::*;
use crate::accounts::Account;
use crate::errors::LoanError;
use crate::pubkey::Pubkey;
use crate::states::protocol::DEFAULT_FEE_RATE_BPS;
use crate::states::Protocol;

verus! {

/// What the registry is set up with.
#[derive(Clone, Copy, Debug, PartialEq, Eq)]
pub struct Initialize {
    /// Key under which the registry will be stored.
    pub protocol: Pubkey,
    /// Who runs the market.
    pub authority: Pubkey,
    /// Where fees and bids are collected.
    pub treasury: Pubkey,
    /// Bump seed of the registry's derived key.
    pub bump: u8,
}

impl Initialize {
    /// The registry of a new market: a fee of 50 basis points, no loans and
    /// no volume.
    pub open spec fn initialized(&self) -> Account<Protocol> {
        Account {
            key: self.protocol,
            data: Protocol {
                authority: self.authority,
                treasury: self.treasury,
                fee_rate: DEFAULT_FEE_RATE_BPS,
                total_loans: 0,
                total_volume: 0,
                bump: self.bump,
            },
        }
    }
}

/// Makes the registry of a new market. It is never refused.
pub fn handler(ctx: &Initialize) -> (result: Result<Account<Protocol>, LoanError>)
    ensures
        result == Ok::<Account<Protocol>, LoanError>(ctx.initialized()),
{
    let protocol = Protocol {
        authority: ctx.authority,
        treasury: ctx.treasury,
        fee_rate: DEFAULT_FEE_RATE_BPS,
        total_loans: 0,
        total_volume: 0,
        bump: ctx.bump,
    };
    Ok(Account { key: ctx.protocol, data: protocol })
}

} // verus!
