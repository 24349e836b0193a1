//! Revising the pledge that a vault's creator made to the backers.

use vstd::prelude::*;
use crate::errors::MusicValueError;
use crate::guards::{check_authority, check_pledge, pledge_violation};
use crate::identity::Identity;
use crate::instructions::applied;
use crate::state::TrackVault;

verus! {

/// The records that a pledge update works on.
#[derive(Debug, PartialEq, Eq)]
pub struct UpdatePledge {
    /// The signer, who must be the vault's authority.
    pub authority: Identity,
    /// The vault whose pledge is revised.
    pub vault: TrackVault,
}

impl Clone for UpdatePledge {
    fn clone(&self) -> (copy: UpdatePledge)
        ensures
            copy == *self,
    {
        UpdatePledge { authority: self.authority, vault: self.vault.clone() }
    }
}

/// Why a pledge update is rejected, if it is: the signer is checked first,
/// then the new terms against the bounds that hold at creation.
pub open spec fn update_pledge_rejection(
    ctx: UpdatePledge,
    royalty_pct: u8,
    distribution_interval: u8,
    pledge_note: Seq<char>,
) -> Option<MusicValueError> {
    if ctx.vault.authority != ctx.authority {
        Some(MusicValueError::Unauthorized)
    } else {
        pledge_violation(royalty_pct, distribution_interval, pledge_note)
    }
}

/// What a pledge update does: the records after it, or why it is rejected.
/// Only the four terms of the pledge change; a pledge update moves no
/// tokens.
pub open spec fn update_pledge_outcome(
    ctx: UpdatePledge,
    royalty_pct: u8,
    distribution_interval: u8,
    vault_duration_months: u16,
    pledge_note: String,
) -> Result<(UpdatePledge, ()), MusicValueError> {
    match update_pledge_rejection(ctx, royalty_pct, distribution_interval, pledge_note@) {
        Some(rejection) => Err(rejection),
        None => Ok(
            (
                UpdatePledge {
                    vault: TrackVault {
                        royalty_pct,
                        distribution_interval,
                        vault_duration_months,
                        pledge_note,
                        ..ctx.vault
                    },
                    ..ctx
                },
                (),
            ),
        ),
    }
}

/// Replaces the four terms of the vault's pledge. Nothing of the earlier
/// terms is kept, and no counter of the vault changes.
pub fn handler(
    ctx: &mut UpdatePledge,
    royalty_pct: u8,
    distribution_interval: u8,
    vault_duration_months: u16,
    pledge_note: String,
) -> (result: Result<(), MusicValueError>)
    ensures
        applied(
            update_pledge_outcome(
                *old(ctx),
                royalty_pct,
                distribution_interval,
                vault_duration_months,
                pledge_note,
            ),
            *old(ctx),
            result,
            *final(ctx),
        ),
        old(ctx).vault.authority != old(ctx).authority ==> result == Err::<(), MusicValueError>(
            MusicValueError::Unauthorized,
        ),
        result is Ok ==> {
            &&& final(ctx).vault.royalty_pct == royalty_pct
            &&& final(ctx).vault.distribution_interval == distribution_interval
            &&& final(ctx).vault.vault_duration_months == vault_duration_months
            &&& final(ctx).vault.pledge_note == pledge_note
            &&& final(ctx).vault.total_deposited == old(ctx).vault.total_deposited
            &&& final(ctx).vault.total_shares == old(ctx).vault.total_shares
            &&& final(ctx).vault.total_yield_distributed
                == old(ctx).vault.total_yield_distributed
            &&& final(ctx).vault.cap == old(ctx).vault.cap
        },
        old(ctx).vault.well_formed() ==> final(ctx).vault.well_formed(),
        old(ctx).vault.fully_backed() ==> final(ctx).vault.fully_backed(),
{
    match check_authority(&ctx.vault, &ctx.authority) {
        Ok(()) => {},
        Err(rejection) => {
            return Err(rejection);
        },
    }
    match check_pledge(royalty_pct, distribution_interval, &pledge_note) {
        Ok(()) => {},
        Err(rejection) => {
            return Err(rejection);
        },
    }
    ctx.vault.royalty_pct = royalty_pct;
    ctx.vault.distribution_interval = distribution_interval;
    ctx.vault.vault_duration_months = vault_duration_months;
    ctx.vault.pledge_note = pledge_note;
    Ok(())
}

} // verus!
