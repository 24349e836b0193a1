//! The two records of the ledger: a vault per track and a position per
//! backer of a vault.

use vstd::prelude::*;
use crate::identity::Identity;

verus! {

/// Longest track id, in characters.
pub const MAX_TRACK_ID_LEN: usize = 32;

/// Longest pledge note, in characters.
pub const MAX_PLEDGE_NOTE_LEN: usize = 200;

/// Highest royalty percentage a pledge can promise.
pub const MAX_ROYALTY_PCT: u8 = 100;

/// Highest distribution interval: 0 is monthly, 1 quarterly, 2 by milestone.
pub const MAX_DISTRIBUTION_INTERVAL: u8 = 2;

/// Decimals of every share mint.
pub const SHARE_DECIMALS: u8 = 6;

/// The length of `text` in characters.
pub fn text_len(text: &String) -> (len: usize)
    ensures
        len == text@.len(),
{
    text.as_str().unicode_len()
}

/// The vault of one track: what it holds, what it has issued, and the
/// pledge its creator made to the backers.
#[derive(Debug, PartialEq, Eq)]
pub struct TrackVault {
    /// The creator; alone allowed to distribute yield and to edit the pledge.
    pub authority: Identity,
    /// The track this vault funds.
    pub audius_track_id: String,
    /// The mint of the value token.
    pub usdc_mint: Identity,
    /// The token account that holds the vault's value.
    pub vault_token_account: Identity,
    /// The mint of the vault's shares.
    pub share_mint: Identity,
    /// Value held: deposits and yield, less what withdrawals paid out.
    pub total_deposited: u64,
    /// The most that deposits may bring `total_deposited` to.
    pub cap: u64,
    /// Shares outstanding.
    pub total_shares: u64,
    /// When the vault was created, in seconds of Unix time.
    pub created_at: i64,
    /// The bump seed of the vault's address.
    pub bump: u8,
    /// The share of royalties pledged to the backers, in percent.
    pub royalty_pct: u8,
    /// How often the creator distributes: 0 monthly, 1 quarterly, 2 by milestone.
    pub distribution_interval: u8,
    /// How long the pledge runs, in months.
    pub vault_duration_months: u16,
    /// The creator's note to the backers.
    pub pledge_note: String,
    /// All yield ever distributed into the vault.
    pub total_yield_distributed: u64,
}

impl Clone for TrackVault {
    fn clone(&self) -> (copy: TrackVault)
        ensures
            copy == *self,
    {
        TrackVault {
            authority: self.authority,
            audius_track_id: self.audius_track_id.clone(),
            usdc_mint: self.usdc_mint,
            vault_token_account: self.vault_token_account,
            share_mint: self.share_mint,
            total_deposited: self.total_deposited,
            cap: self.cap,
            total_shares: self.total_shares,
            created_at: self.created_at,
            bump: self.bump,
            royalty_pct: self.royalty_pct,
            distribution_interval: self.distribution_interval,
            vault_duration_months: self.vault_duration_months,
            pledge_note: self.pledge_note.clone(),
            total_yield_distributed: self.total_yield_distributed,
        }
    }
}

impl TrackVault {
    /// The bounds that creation checks and that every later operation keeps.
    pub open spec fn well_formed(self) -> bool {
        &&& self.audius_track_id@.len() <= MAX_TRACK_ID_LEN
        &&& self.cap > 0
        &&& self.royalty_pct <= MAX_ROYALTY_PCT
        &&& self.distribution_interval <= MAX_DISTRIBUTION_INTERVAL
        &&& self.pledge_note@.len() <= MAX_PLEDGE_NOTE_LEN
    }

    /// Every outstanding share is backed by at least one unit of value, so
    /// the share price is at least one.
    pub open spec fn fully_backed(self) -> bool {
        self.total_shares <= self.total_deposited
    }

    /// The share price of `self` is strictly below that of `other`. A share
    /// price is the rational `total_deposited / total_shares`; two prices are
    /// compared by cross-multiplication.
    pub open spec fn share_price_below(self, other: TrackVault) -> bool {
        self.total_deposited * other.total_shares < other.total_deposited * self.total_shares
    }
}

/// One backer's stake in one vault.
#[derive(Clone, Copy, Debug, PartialEq, Eq)]
pub struct UserPosition {
    /// The backer.
    pub owner: Identity,
    /// The vault this position belongs to.
    pub vault: Identity,
    /// Shares the backer holds.
    pub shares_held: u64,
    /// All value the backer ever deposited.
    pub total_deposited: u64,
    /// When the backer first deposited, in seconds of Unix time.
    pub deposited_at: i64,
    /// The bump seed of the position's address.
    pub bump: u8,
}

/// The shares of a backer whose position may not be open yet: none in that
/// case.
pub open spec fn shares_held_by(position: Option<UserPosition>) -> nat {
    match position {
        Some(position) => position.shares_held as nat,
        None => 0,
    }
}

} // verus!
