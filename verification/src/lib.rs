//! Share accounting for track vaults: creators open a vault with a funding
//! cap and a royalty pledge, backers deposit value for shares, yield raises
//! the value of every share, and shares are redeemed pro rata.
//!
//! Each operation is one atomic transition: it either changes the records
//! it is handed and says which token movements go with the change, or it is
//! rejected and changes nothing. Moving the tokens, finding the records and
//! reading the clock are the caller's part.
//!
//! - [`state`] holds the two records, [`errors`] the reasons for rejection,
//!   [`requests`] what is asked of the token program.
//! - [`instructions`] holds the five operations, [`guards`] their checks
//!   and [`math`] the arithmetic of redemption.
//! - [`ledger`] states what holds of a vault and all its positions over any
//!   sequence of operations.

pub mod errors;
pub mod guards;
pub mod identity;
pub mod instructions;
pub mod ledger;
pub mod math;
pub mod requests;
pub mod state;

use vstd::prelude::*;
use crate::errors::MusicValueError;
use crate::instructions::applied;
use crate::instructions::deposit::{deposit_outcome, Deposit, DepositEffects};
use crate::instructions::distribute_yield::{distribute_yield_outcome, DistributeYield};
use crate::instructions::initialize_vault::{
    initialize_vault_outcome, InitializeVault, InitializeVaultEffects,
};
use crate::instructions::update_pledge::{update_pledge_outcome, UpdatePledge};
use crate::instructions::withdraw::{withdraw_outcome, Withdraw, WithdrawEffects};
use crate::requests::Transfer;

verus! {

/// Opens the vault of a track with a funding cap and a royalty pledge.
pub fn initialize_vault(
    ctx: &mut InitializeVault,
    audius_track_id: String,
    cap: u64,
    royalty_pct: u8,
    distribution_interval: u8,
    vault_duration_months: u16,
    pledge_note: String,
) -> (result: Result<InitializeVaultEffects, MusicValueError>)
    ensures
        applied(
            initialize_vault_outcome(
                *old(ctx),
                audius_track_id,
                cap,
                royalty_pct,
                distribution_interval,
                vault_duration_months,
                pledge_note,
            ),
            *old(ctx),
            result,
            *final(ctx),
        ),
{
    instructions::initialize_vault::handler(
        ctx,
        audius_track_id,
        cap,
        royalty_pct,
        distribution_interval,
        vault_duration_months,
        pledge_note,
    )
}

/// Deposits value into a vault and issues as many shares to the backer.
pub fn deposit(ctx: &mut Deposit, amount: u64) -> (result: Result<DepositEffects, MusicValueError>)
    ensures
        applied(deposit_outcome(*old(ctx), amount), *old(ctx), result, *final(ctx)),
{
    instructions::deposit::handler(ctx, amount)
}

/// Redeems shares of a vault for their pro-rata part of its value.
pub fn withdraw(ctx: &mut Withdraw, shares: u64) -> (result: Result<
    WithdrawEffects,
    MusicValueError,
>)
    ensures
        applied(withdraw_outcome(*old(ctx), shares), *old(ctx), result, *final(ctx)),
{
    instructions::withdraw::handler(ctx, shares)
}

/// Distributes yield into a vault: its value grows, its shares do not, so
/// each share redeems more. For the vault's authority only.
pub fn distribute_yield(ctx: &mut DistributeYield, amount: u64) -> (result: Result<
    Transfer,
    MusicValueError,
>)
    ensures
        applied(distribute_yield_outcome(*old(ctx), amount), *old(ctx), result, *final(ctx)),
{
    instructions::distribute_yield::handler(ctx, amount)
}

/// Replaces the pledge of a vault. For the vault's authority only.
pub fn update_pledge(
    ctx: &mut UpdatePledge,
    royalty_pct: u8,
    distribution_interval: u8,
    vault_duration_months: u16,
    pledge_note: String,
) -> (result: Result<(), MusicValueError>)
    ensures
        applied(
            update_pledge_outcome(
                *old(ctx),
                royalty_pct,
                distribution_interval,
                vault_duration_months,
                pledge_note,
            ),
            *old(ctx),
            result,
            *final(ctx),
        ),
{
    instructions::update_pledge::handler(
        ctx,
        royalty_pct,
        distribution_interval,
        vault_duration_months,
        pledge_note,
    )
}

} // verus!
