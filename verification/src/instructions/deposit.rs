//! Depositing value into a vault for shares.

use vstd::prelude::*;
use crate::errors::{LedgerField, MusicValueError};
use crate::identity::Identity;
use crate::instructions::applied;
use crate::requests::{MintTo, Transfer};
use crate::state::{shares_held_by, TrackVault, UserPosition};

verus! {

/// The records and accounts that a deposit works on.
#[derive(Debug, PartialEq, Eq)]
pub struct Deposit {
    /// The backer who deposits.
    pub user: Identity,
    /// The address of `vault`.
    pub vault_key: Identity,
    /// The vault that the value goes into.
    pub vault: TrackVault,
    /// The backer's position in `vault`; `None` before the first deposit.
    pub user_position: Option<UserPosition>,
    /// The bump seed of the position's address.
    pub position_bump: u8,
    /// The backer's value account, out of which the deposit is paid.
    pub user_usdc: Identity,
    /// The backer's share account, which receives the new shares.
    pub user_shares: Identity,
    /// The time of the deposit, in seconds of Unix time.
    pub unix_timestamp: i64,
}

impl Clone for Deposit {
    fn clone(&self) -> (copy: Deposit)
        ensures
            copy == *self,
    {
        Deposit {
            user: self.user,
            vault_key: self.vault_key,
            vault: self.vault.clone(),
            user_position: self.user_position,
            position_bump: self.position_bump,
            user_usdc: self.user_usdc,
            user_shares: self.user_shares,
            unix_timestamp: self.unix_timestamp,
        }
    }
}

/// What a deposit asks of the token program.
#[derive(Clone, Copy, Debug, PartialEq, Eq)]
pub struct DepositEffects {
    /// The deposit, from the backer's value account to the vault's.
    pub transfer: Transfer,
    /// The new shares, minted to the backer's share account.
    pub mint_to: MintTo,
}

/// Why a deposit of `amount` is rejected, if it is. The checks run in this
/// order: the amount, the cap, then the ranges of the counters. A sum that
/// leaves the range of the vault's value is above every cap.
pub open spec fn deposit_rejection(ctx: Deposit, amount: u64) -> Option<MusicValueError> {
    if amount == 0 {
        Some(MusicValueError::ZeroDeposit)
    } else if ctx.vault.total_deposited + amount > ctx.vault.cap {
        Some(
            MusicValueError::VaultCapExceeded {
                cap: ctx.vault.cap,
                total_deposited: ctx.vault.total_deposited,
                amount,
            },
        )
    } else if ctx.vault.total_shares + amount > u64::MAX {
        Some(MusicValueError::ArithmeticOverflow { field: LedgerField::TotalShares })
    } else if ctx.user_position matches Some(position)
        && position.shares_held + amount > u64::MAX {
        Some(MusicValueError::ArithmeticOverflow { field: LedgerField::SharesHeld })
    } else if ctx.user_position matches Some(position)
        && position.total_deposited + amount > u64::MAX {
        Some(MusicValueError::ArithmeticOverflow { field: LedgerField::PositionDeposited })
    } else {
        None
    }
}

/// The backer's position after an accepted deposit of `amount`: a first
/// deposit opens it, a later one adds to it and leaves owner, vault and the
/// time of the first deposit alone.
pub open spec fn position_after_deposit(ctx: Deposit, amount: u64) -> UserPosition {
    match ctx.user_position {
        None => UserPosition {
            owner: ctx.user,
            vault: ctx.vault_key,
            shares_held: amount,
            total_deposited: amount,
            deposited_at: ctx.unix_timestamp,
            bump: ctx.position_bump,
        },
        Some(position) => UserPosition {
            shares_held: (position.shares_held + amount) as u64,
            total_deposited: (position.total_deposited + amount) as u64,
            bump: ctx.position_bump,
            ..position
        },
    }
}

/// What a deposit of `amount` does: the records after it and the token
/// movements it asks for, or why it is rejected. Shares are minted one for
/// each unit of value, whatever the share price.
pub open spec fn deposit_outcome(ctx: Deposit, amount: u64) -> Result<
    (Deposit, DepositEffects),
    MusicValueError,
> {
    match deposit_rejection(ctx, amount) {
        Some(rejection) => Err(rejection),
        None => Ok(
            (
                Deposit {
                    vault: TrackVault {
                        total_deposited: (ctx.vault.total_deposited + amount) as u64,
                        total_shares: (ctx.vault.total_shares + amount) as u64,
                        ..ctx.vault
                    },
                    user_position: Some(position_after_deposit(ctx, amount)),
                    ..ctx
                },
                DepositEffects {
                    transfer: Transfer {
                        from: ctx.user_usdc,
                        to: ctx.vault.vault_token_account,
                        authority: ctx.user,
                        amount,
                    },
                    mint_to: MintTo {
                        mint: ctx.vault.share_mint,
                        to: ctx.user_shares,
                        authority: ctx.vault_key,
                        amount,
                    },
                },
            ),
        ),
    }
}

/// Cap enforcement: a deposit above zero that would bring the vault's
/// value above its cap is rejected for that reason; an accepted deposit
/// adds exactly `amount` to the vault's value, which stays within the cap,
/// and exactly `amount` shares to the vault and to the position; and a
/// deposit is accepted exactly where it is above zero, stays within the
/// cap (landing on it included), and leaves every counter in range.
pub proof fn lemma_deposit_respects_cap(ctx: Deposit, amount: u64)
    ensures
        amount > 0 && ctx.vault.total_deposited + amount > ctx.vault.cap ==> deposit_outcome(
            ctx,
            amount,
        ) == Err::<(Deposit, DepositEffects), MusicValueError>(
            MusicValueError::VaultCapExceeded {
                cap: ctx.vault.cap,
                total_deposited: ctx.vault.total_deposited,
                amount,
            },
        ),
        deposit_outcome(ctx, amount) matches Ok((after, effects)) ==> {
            &&& effects.transfer.amount == amount
            &&& effects.mint_to.amount == amount
            &&& after.vault.total_deposited == ctx.vault.total_deposited + amount
            &&& after.vault.total_deposited <= after.vault.cap
            &&& after.vault.total_shares == ctx.vault.total_shares + amount
            &&& shares_held_by(after.user_position) == shares_held_by(ctx.user_position)
                + amount
        },
        deposit_outcome(ctx, amount) is Ok <==> {
            &&& amount > 0
            &&& ctx.vault.total_deposited + amount <= ctx.vault.cap
            &&& ctx.vault.total_shares + amount <= u64::MAX
            &&& ctx.user_position matches Some(position) ==> {
                &&& position.shares_held + amount <= u64::MAX
                &&& position.total_deposited + amount <= u64::MAX
            }
        },
{
}

/// Deposits `amount` into the vault and issues `amount` shares to the
/// backer. A deposit that would lift the vault's value above its cap is
/// rejected; one that lands on the cap is accepted.
pub fn handler(ctx: &mut Deposit, amount: u64) -> (result: Result<DepositEffects, MusicValueError>)
    ensures
        applied(deposit_outcome(*old(ctx), amount), *old(ctx), result, *final(ctx)),
        result is Ok <==> {
            &&& amount > 0
            &&& old(ctx).vault.total_deposited + amount <= old(ctx).vault.cap
            &&& old(ctx).vault.total_shares + amount <= u64::MAX
            &&& old(ctx).user_position matches Some(position) ==> {
                &&& position.shares_held + amount <= u64::MAX
                &&& position.total_deposited + amount <= u64::MAX
            }
        },
        amount > 0 && old(ctx).vault.total_deposited + amount > old(ctx).vault.cap ==> result
            == Err::<DepositEffects, MusicValueError>(
            MusicValueError::VaultCapExceeded {
                cap: old(ctx).vault.cap,
                total_deposited: old(ctx).vault.total_deposited,
                amount,
            },
        ),
        result matches Ok(effects) ==> {
            &&& effects.transfer.amount == amount
            &&& effects.mint_to.amount == amount
            &&& final(ctx).vault.total_deposited == old(ctx).vault.total_deposited + amount
            &&& final(ctx).vault.total_deposited <= final(ctx).vault.cap
            &&& final(ctx).vault.total_shares == old(ctx).vault.total_shares + amount
            &&& shares_held_by(final(ctx).user_position) == shares_held_by(
                old(ctx).user_position,
            ) + amount
        },
        old(ctx).vault.well_formed() ==> final(ctx).vault.well_formed(),
        old(ctx).vault.fully_backed() ==> final(ctx).vault.fully_backed(),
{
    if amount == 0 {
        return Err(MusicValueError::ZeroDeposit);
    }
    let cap_exceeded = MusicValueError::VaultCapExceeded {
        cap: ctx.vault.cap,
        total_deposited: ctx.vault.total_deposited,
        amount,
    };
    let total_deposited = match ctx.vault.total_deposited.checked_add(amount) {
        Some(sum) => sum,
        None => {
            return Err(cap_exceeded);
        },
    };
    if total_deposited > ctx.vault.cap {
        return Err(cap_exceeded);
    }
    let total_shares = match ctx.vault.total_shares.checked_add(amount) {
        Some(sum) => sum,
        None => {
            return Err(MusicValueError::ArithmeticOverflow { field: LedgerField::TotalShares });
        },
    };
    let position = match ctx.user_position {
        None => UserPosition {
            owner: ctx.user,
            vault: ctx.vault_key,
            shares_held: amount,
            total_deposited: amount,
            deposited_at: ctx.unix_timestamp,
            bump: ctx.position_bump,
        },
        Some(position) => {
            let shares_held = match position.shares_held.checked_add(amount) {
                Some(sum) => sum,
                None => {
                    return Err(
                        MusicValueError::ArithmeticOverflow { field: LedgerField::SharesHeld },
                    );
                },
            };
            let deposited = match position.total_deposited.checked_add(amount) {
                Some(sum) => sum,
                None => {
                    return Err(
                        MusicValueError::ArithmeticOverflow {
                            field: LedgerField::PositionDeposited,
                        },
                    );
                },
            };
            UserPosition {
                owner: position.owner,
                vault: position.vault,
                shares_held,
                total_deposited: deposited,
                deposited_at: position.deposited_at,
                bump: ctx.position_bump,
            }
        },
    };
    let effects = DepositEffects {
        transfer: Transfer {
            from: ctx.user_usdc,
            to: ctx.vault.vault_token_account,
            authority: ctx.user,
            amount,
        },
        mint_to: MintTo {
            mint: ctx.vault.share_mint,
            to: ctx.user_shares,
            authority: ctx.vault_key,
            amount,
        },
    };
    ctx.vault.total_deposited = total_deposited;
    ctx.vault.total_shares = total_shares;
    ctx.user_position = Some(position);
    Ok(effects)
}

} // verus!
