//! The market's registry: who runs it, where fees go, and running totals.

use vstd::prelude::*;
use crate::pubkey::Pubkey;

verus! {

/// Fee charged by the market, in basis points.
pub const DEFAULT_FEE_RATE_BPS: u16 = 50;

/// Configuration and counters of one market.
#[derive(Clone, Copy, Debug, PartialEq, Eq)]
pub struct Protocol {
    pub authority: Pubkey,
    pub treasury: Pubkey,
    /// Fee, in basis points.
    pub fee_rate: u16,
    /// Number of loans made so far.
    pub total_loans: u64,
    /// Sum of the principals of the loans made so far.
    pub total_volume: u64,
    /// Bump seed of the record's derived key.
    pub bump: u8,
}

impl Protocol {
    /// Bytes a stored registry takes.
    pub const LEN: usize = 32 + 32 + 2 + 8 + 8 + 1;
}

} // verus!
