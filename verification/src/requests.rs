//! What an operation asks of the token program. The ledger decides amounts
//! and directions; moving the tokens is the caller's part.

use vstd::prelude::*;
use crate::identity::Identity;

verus! {

/// Move `amount` of a token from one account to another.
#[derive(Clone, Copy, Debug, PartialEq, Eq)]
pub struct Transfer {
    pub from: Identity,
    pub to: Identity,
    /// Who signs for the source account.
    pub authority: Identity,
    pub amount: u64,
}

/// Mint `amount` new tokens of `mint` into the account `to`.
#[derive(Clone, Copy, Debug, PartialEq, Eq)]
pub struct MintTo {
    pub mint: Identity,
    pub to: Identity,
    /// The mint's authority.
    pub authority: Identity,
    pub amount: u64,
}

/// Burn `amount` tokens of `mint` out of the account `from`.
#[derive(Clone, Copy, Debug, PartialEq, Eq)]
pub struct Burn {
    pub mint: Identity,
    pub from: Identity,
    /// Who signs for the account.
    pub authority: Identity,
    pub amount: u64,
}

/// Open a token account for `mint` at `address`, controlled by `authority`.
#[derive(Clone, Copy, Debug, PartialEq, Eq)]
pub struct OpenTokenAccount {
    pub address: Identity,
    pub mint: Identity,
    pub authority: Identity,
}

/// Open a mint at `address` whose tokens `authority` alone can issue.
#[derive(Clone, Copy, Debug, PartialEq, Eq)]
pub struct OpenMint {
    pub address: Identity,
    pub decimals: u8,
    pub authority: Identity,
}

} // verus!
