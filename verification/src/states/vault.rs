//! The custody record of a loan's collateral.

use vstd::prelude::*;
use crate::pubkey::Pubkey;

verus! {

/// Binds one loan to the holding in which its collateral is kept.
#[derive(Clone, Copy, Debug, PartialEq, Eq)]
pub struct Vault {
    /// Key of the loan that the vault serves.
    pub loan: Pubkey,
    pub collateral_mint: Pubkey,
    /// The only party that may authorise a transfer out of the vault.
    pub authority: Pubkey,
    /// Bump seed of the record's derived key.
    pub bump: u8,
}

impl Vault {
    /// Bytes a stored vault takes.
    pub const LEN: usize = 32 + 32 + 32 + 1;
}

} // verus!
