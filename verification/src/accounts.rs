//! Records as they are handed to an operation, token holdings, and the
//! transfers that an operation asks for.

use vstd::prelude::*;
use crate::pubkey::Pubkey;

verus! {

/// A record together with the key under which it is stored.
#[derive(Debug, PartialEq, Eq)]
pub struct Account<T> {
    pub key: Pubkey,
    pub data: T,
}

impl<T: Copy> Clone for Account<T> {
    fn clone(&self) -> (copy: Self)
        ensures
            copy == *self,
    {
        *self
    }
}

impl<T: Copy> Copy for Account<T> {

}

/// A holding of one asset by one owner.
#[derive(Clone, Copy, Debug, PartialEq, Eq)]
pub struct TokenAccount {
    /// Where the holding is kept.
    pub key: Pubkey,
    /// The asset that is held.
    pub mint: Pubkey,
    /// Who may move the holding.
    pub owner: Pubkey,
}

impl TokenAccount {
    /// The holding is of asset `mint` and belongs to `owner`.
    pub open spec fn spec_is_for(&self, mint: &Pubkey, owner: &Pubkey) -> bool {
        self.mint == *mint && self.owner == *owner
    }

    /// The holding is of asset `mint` and belongs to `owner`.
    #[verifier::when_used_as_spec(spec_is_for)]
    pub fn is_for(&self, mint: &Pubkey, owner: &Pubkey) -> (yes: bool)
        ensures
            yes == self.spec_is_for(mint, owner),
    {
        self.mint == *mint && self.owner == *owner
    }

    /// The holding belongs to `owner`.
    pub open spec fn spec_is_owned_by(&self, owner: &Pubkey) -> bool {
        self.owner == *owner
    }

    /// The holding belongs to `owner`.
    #[verifier::when_used_as_spec(spec_is_owned_by)]
    pub fn is_owned_by(&self, owner: &Pubkey) -> (yes: bool)
        ensures
            yes == self.spec_is_owned_by(owner),
    {
        self.owner == *owner
    }
}

/// A request to the transfer primitive: move `amount` units from the holding
/// `from` to the holding `to`, authorised by `authority`. An operation that
/// returns transfers has taken effect only if all of them go through, in the
/// order given.
#[derive(Clone, Copy, Debug, PartialEq, Eq)]
pub struct Transfer {
    pub from: Pubkey,
    pub to: Pubkey,
    pub authority: Pubkey,
    pub amount: u64,
}

} // verus!
