//! Opening the vault of a track.

use vstd::prelude::*;
use crate::errors::MusicValueError;
use crate::guards::{check_vault_terms, vault_terms_violation};
use crate::identity::Identity;
use crate::instructions::applied;
use crate::requests::{OpenMint, OpenTokenAccount};
use crate::state::{TrackVault, SHARE_DECIMALS};

verus! {

/// The records and accounts that the creation of a vault works on.
#[derive(Debug, PartialEq, Eq)]
pub struct InitializeVault {
    /// The creator, who becomes the vault's authority.
    pub authority: Identity,
    /// The address of the track's vault, which the track id determines.
    pub vault_key: Identity,
    /// The record at `vault_key`: `None` while the track has no vault.
    pub vault: Option<TrackVault>,
    /// The bump seed of `vault_key`.
    pub vault_bump: u8,
    /// The mint of the value token.
    pub usdc_mint: Identity,
    /// The address of the token account that will hold the vault's value.
    pub vault_token_account: Identity,
    /// The address of the vault's share mint.
    pub share_mint: Identity,
    /// The time of creation, in seconds of Unix time.
    pub unix_timestamp: i64,
}

impl Clone for InitializeVault {
    fn clone(&self) -> (copy: InitializeVault)
        ensures
            copy == *self,
    {
        InitializeVault {
            authority: self.authority,
            vault_key: self.vault_key,
            vault: match &self.vault {
                Some(vault) => Some(vault.clone()),
                None => None,
            },
            vault_bump: self.vault_bump,
            usdc_mint: self.usdc_mint,
            vault_token_account: self.vault_token_account,
            share_mint: self.share_mint,
            unix_timestamp: self.unix_timestamp,
        }
    }
}

/// The two token identities that a new vault needs, both under the vault's
/// own control.
#[derive(Clone, Copy, Debug, PartialEq, Eq)]
pub struct InitializeVaultEffects {
    /// The account that holds the vault's value.
    pub token_account: OpenTokenAccount,
    /// The mint of the vault's shares.
    pub share_mint: OpenMint,
}

/// Why the creation of a vault is rejected, if it is: a vault that exists
/// is never replaced, and the terms must be within their bounds.
pub open spec fn initialize_vault_rejection(
    ctx: InitializeVault,
    audius_track_id: Seq<char>,
    cap: u64,
    royalty_pct: u8,
    distribution_interval: u8,
    pledge_note: Seq<char>,
) -> Option<MusicValueError> {
    if ctx.vault is Some {
        Some(MusicValueError::VaultAlreadyInitialized)
    } else {
        vault_terms_violation(audius_track_id, cap, royalty_pct, distribution_interval, pledge_note)
    }
}

/// The record of a vault at its creation: nothing deposited, no share
/// issued, no yield distributed.
pub open spec fn new_vault(
    ctx: InitializeVault,
    audius_track_id: String,
    cap: u64,
    royalty_pct: u8,
    distribution_interval: u8,
    vault_duration_months: u16,
    pledge_note: String,
) -> TrackVault {
    TrackVault {
        authority: ctx.authority,
        audius_track_id,
        usdc_mint: ctx.usdc_mint,
        vault_token_account: ctx.vault_token_account,
        share_mint: ctx.share_mint,
        total_deposited: 0,
        cap,
        total_shares: 0,
        created_at: ctx.unix_timestamp,
        bump: ctx.vault_bump,
        royalty_pct,
        distribution_interval,
        vault_duration_months,
        pledge_note,
        total_yield_distributed: 0,
    }
}

/// The token identities that the creation of a vault asks for.
pub open spec fn initialize_vault_effects(ctx: InitializeVault) -> InitializeVaultEffects {
    InitializeVaultEffects {
        token_account: OpenTokenAccount {
            address: ctx.vault_token_account,
            mint: ctx.usdc_mint,
            authority: ctx.vault_key,
        },
        share_mint: OpenMint {
            address: ctx.share_mint,
            decimals: SHARE_DECIMALS,
            authority: ctx.vault_key,
        },
    }
}

/// What the creation of a vault does: the records after it and the token
/// identities it asks for, or why it is rejected.
pub open spec fn initialize_vault_outcome(
    ctx: InitializeVault,
    audius_track_id: String,
    cap: u64,
    royalty_pct: u8,
    distribution_interval: u8,
    vault_duration_months: u16,
    pledge_note: String,
) -> Result<(InitializeVault, InitializeVaultEffects), MusicValueError> {
    match initialize_vault_rejection(
        ctx,
        audius_track_id@,
        cap,
        royalty_pct,
        distribution_interval,
        pledge_note@,
    ) {
        Some(rejection) => Err(rejection),
        None => Ok(
            (
                InitializeVault {
                    vault: Some(
                        new_vault(
                            ctx,
                            audius_track_id,
                            cap,
                            royalty_pct,
                            distribution_interval,
                            vault_duration_months,
                            pledge_note,
                        ),
                    ),
                    ..ctx
                },
                initialize_vault_effects(ctx),
            ),
        ),
    }
}

/// The record at the vault's address after a creation was asked for,
/// accepted or not.
pub open spec fn vault_after(
    ctx: InitializeVault,
    audius_track_id: String,
    cap: u64,
    royalty_pct: u8,
    distribution_interval: u8,
    vault_duration_months: u16,
    pledge_note: String,
) -> Option<TrackVault> {
    match initialize_vault_outcome(
        ctx,
        audius_track_id,
        cap,
        royalty_pct,
        distribution_interval,
        vault_duration_months,
        pledge_note,
    ) {
        Ok((after, _)) => after.vault,
        Err(_) => ctx.vault,
    }
}

/// Opens the vault of a track with the given cap and pledge: nothing
/// deposited, no share issued, no yield distributed. A track has one vault:
/// a second creation is rejected and leaves the first vault as it is.
pub fn handler(
    ctx: &mut InitializeVault,
    audius_track_id: String,
    cap: u64,
    royalty_pct: u8,
    distribution_interval: u8,
    vault_duration_months: u16,
    pledge_note: String,
) -> (result: Result<InitializeVaultEffects, MusicValueError>)
    ensures
        applied(
            initialize_vault_outcome(
                *old(ctx),
                audius_track_id,
                cap,
                royalty_pct,
                distribution_interval,
                vault_duration_months,
                pledge_note,
            ),
            *old(ctx),
            result,
            *final(ctx),
        ),
        result is Ok <==> old(ctx).vault is None && vault_terms_violation(
            audius_track_id@,
            cap,
            royalty_pct,
            distribution_interval,
            pledge_note@,
        ) is None,
        old(ctx).vault is Some ==> result == Err::<InitializeVaultEffects, MusicValueError>(
            MusicValueError::VaultAlreadyInitialized,
        ),
        result is Ok ==> (final(ctx).vault matches Some(vault) && vault.well_formed()
            && vault.fully_backed() && vault.total_deposited == 0 && vault.total_shares == 0
            && vault.total_yield_distributed == 0),
{
    if ctx.vault.is_some() {
        return Err(MusicValueError::VaultAlreadyInitialized);
    }
    let checked = check_vault_terms(
        &audius_track_id,
        cap,
        royalty_pct,
        distribution_interval,
        &pledge_note,
    );
    match checked {
        Ok(()) => {},
        Err(rejection) => {
            return Err(rejection);
        },
    }
    let effects = InitializeVaultEffects {
        token_account: OpenTokenAccount {
            address: ctx.vault_token_account,
            mint: ctx.usdc_mint,
            authority: ctx.vault_key,
        },
        share_mint: OpenMint {
            address: ctx.share_mint,
            decimals: SHARE_DECIMALS,
            authority: ctx.vault_key,
        },
    };
    ctx.vault = Some(
        TrackVault {
            authority: ctx.authority,
            audius_track_id,
            usdc_mint: ctx.usdc_mint,
            vault_token_account: ctx.vault_token_account,
            share_mint: ctx.share_mint,
            total_deposited: 0,
            cap,
            total_shares: 0,
            created_at: ctx.unix_timestamp,
            bump: ctx.vault_bump,
            royalty_pct,
            distribution_interval,
            vault_duration_months,
            pledge_note,
            total_yield_distributed: 0,
        },
    );
    Ok(effects)
}

/// Creating twice: where the creation of a track's vault was accepted,
/// every later creation at the same address, whatever its terms, is rejected
/// because the vault exists, and the record stays as the first creation
/// made it.
pub proof fn lemma_second_creation_rejected(
    first: InitializeVault,
    audius_track_id: String,
    cap: u64,
    royalty_pct: u8,
    distribution_interval: u8,
    vault_duration_months: u16,
    pledge_note: String,
    second: InitializeVault,
    second_track_id: String,
    second_cap: u64,
    second_royalty_pct: u8,
    second_distribution_interval: u8,
    second_duration_months: u16,
    second_pledge_note: String,
)
    requires
        initialize_vault_outcome(
            first,
            audius_track_id,
            cap,
            royalty_pct,
            distribution_interval,
            vault_duration_months,
            pledge_note,
        ) is Ok,
        second.vault == vault_after(
            first,
            audius_track_id,
            cap,
            royalty_pct,
            distribution_interval,
            vault_duration_months,
            pledge_note,
        ),
    ensures
        initialize_vault_outcome(
            second,
            second_track_id,
            second_cap,
            second_royalty_pct,
            second_distribution_interval,
            second_duration_months,
            second_pledge_note,
        ) == Err::<(InitializeVault, InitializeVaultEffects), MusicValueError>(
            MusicValueError::VaultAlreadyInitialized,
        ),
        vault_after(
            second,
            second_track_id,
            second_cap,
            second_royalty_pct,
            second_distribution_interval,
            second_duration_months,
            second_pledge_note,
        ) == second.vault,
        second.vault == Some(
            new_vault(
                first,
                audius_track_id,
                cap,
                royalty_pct,
                distribution_interval,
                vault_duration_months,
                pledge_note,
            ),
        ),
{
}

/// A creation is accepted exactly where the track has no vault yet and the
/// terms are within their bounds.
pub proof fn lemma_first_creation_accepted(
    ctx: InitializeVault,
    audius_track_id: String,
    cap: u64,
    royalty_pct: u8,
    distribution_interval: u8,
    vault_duration_months: u16,
    pledge_note: String,
)
    ensures
        initialize_vault_outcome(
            ctx,
            audius_track_id,
            cap,
            royalty_pct,
            distribution_interval,
            vault_duration_months,
            pledge_note,
        ) is Ok <==> ctx.vault is None && vault_terms_violation(
            audius_track_id@,
            cap,
            royalty_pct,
            distribution_interval,
            pledge_note@,
        ) is None,
{
}

} // verus!
