//! Redeeming shares for their pro-rata part of the vault's value.

use vstd::prelude::*;
use crate::errors::{LedgerField, MusicValueError};
use crate::identity::Identity;
use crate::instructions::applied;
use crate::math::{
    lemma_redeemable_bounded, lemma_redeemable_keeps_backing, redeemable, redeemable_value,
};
use crate::requests::{Burn, Transfer};
use crate::state::{TrackVault, UserPosition};

verus! {

/// The records and accounts that a withdrawal works on.
#[derive(Debug, PartialEq, Eq)]
pub struct Withdraw {
    /// The backer who redeems.
    pub user: Identity,
    /// The address of `vault`.
    pub vault_key: Identity,
    /// The vault that the shares are redeemed from.
    pub vault: TrackVault,
    /// The backer's position in `vault`.
    pub user_position: UserPosition,
    /// The backer's value account, which receives the payout.
    pub user_usdc: Identity,
    /// The backer's share account, out of which the shares are burnt.
    pub user_shares: Identity,
}

impl Clone for Withdraw {
    fn clone(&self) -> (copy: Withdraw)
        ensures
            copy == *self,
    {
        Withdraw {
            user: self.user,
            vault_key: self.vault_key,
            vault: self.vault.clone(),
            user_position: self.user_position,
            user_usdc: self.user_usdc,
            user_shares: self.user_shares,
        }
    }
}

/// What a withdrawal asks of the token program.
#[derive(Clone, Copy, Debug, PartialEq, Eq)]
pub struct WithdrawEffects {
    /// The payout, from the vault's value account to the backer's.
    pub transfer: Transfer,
    /// The redeemed shares, burnt out of the backer's share account.
    pub burn: Burn,
}

/// Why a withdrawal of `shares` shares is rejected, if it is. The checks
/// run in this order: the number of shares, the backer's holding, then the
/// vault's outstanding shares, which a position of a consistent ledger
/// never exceeds.
pub open spec fn withdraw_rejection(ctx: Withdraw, shares: u64) -> Option<MusicValueError> {
    if shares == 0 {
        Some(MusicValueError::ZeroWithdraw)
    } else if ctx.user_position.shares_held < shares {
        Some(
            MusicValueError::InsufficientShares {
                held: ctx.user_position.shares_held,
                requested: shares,
            },
        )
    } else if ctx.vault.total_shares < shares {
        Some(MusicValueError::ArithmeticOverflow { field: LedgerField::TotalShares })
    } else {
        None
    }
}

/// The payout of an accepted withdrawal of `shares` shares: their part of
/// the vault's value at the share price of the moment, rounded down.
pub open spec fn withdraw_payout(ctx: Withdraw, shares: u64) -> nat {
    redeemable(shares as nat, ctx.vault.total_deposited as nat, ctx.vault.total_shares as nat)
}

/// What a withdrawal of `shares` shares does: the records after it and the
/// token movements it asks for, or why it is rejected.
pub open spec fn withdraw_outcome(ctx: Withdraw, shares: u64) -> Result<
    (Withdraw, WithdrawEffects),
    MusicValueError,
> {
    match withdraw_rejection(ctx, shares) {
        Some(rejection) => Err(rejection),
        None => {
            let payout = withdraw_payout(ctx, shares);
            Ok(
                (
                    Withdraw {
                        vault: TrackVault {
                            total_deposited: (ctx.vault.total_deposited - payout) as u64,
                            total_shares: (ctx.vault.total_shares - shares) as u64,
                            ..ctx.vault
                        },
                        user_position: UserPosition {
                            shares_held: (ctx.user_position.shares_held - shares) as u64,
                            ..ctx.user_position
                        },
                        ..ctx
                    },
                    WithdrawEffects {
                        transfer: Transfer {
                            from: ctx.vault.vault_token_account,
                            to: ctx.user_usdc,
                            authority: ctx.vault_key,
                            amount: payout as u64,
                        },
                        burn: Burn {
                            mint: ctx.vault.share_mint,
                            from: ctx.user_shares,
                            authority: ctx.user,
                            amount: shares,
                        },
                    },
                ),
            )
        },
    }
}

/// Pro rata: an accepted withdrawal of `shares` shares pays out the floor
/// of `shares * total_deposited / total_shares`, which is never more than
/// the vault holds, and takes exactly the payout from the vault's value and
/// exactly the shares from the vault and from the position. A vault that
/// backs every share still does so afterwards.
pub proof fn lemma_withdraw_pays_pro_rata(ctx: Withdraw, shares: u64)
    requires
        withdraw_outcome(ctx, shares) is Ok,
    ensures
        ({
            let (after, effects) = withdraw_outcome(ctx, shares).unwrap();
            &&& effects.transfer.amount == (shares * ctx.vault.total_deposited)
                / (ctx.vault.total_shares as int)
            &&& effects.transfer.amount <= ctx.vault.total_deposited
            &&& effects.burn.amount == shares
            &&& after.vault.total_deposited == ctx.vault.total_deposited
                - effects.transfer.amount
            &&& after.vault.total_shares == ctx.vault.total_shares - shares
            &&& after.user_position.shares_held == ctx.user_position.shares_held - shares
            &&& ctx.vault.fully_backed() ==> after.vault.fully_backed()
        }),
{
    lemma_redeemable_bounded(
        shares as nat,
        ctx.vault.total_deposited as nat,
        ctx.vault.total_shares as nat,
    );
    if ctx.vault.fully_backed() {
        lemma_redeemable_keeps_backing(
            shares as nat,
            ctx.vault.total_deposited as nat,
            ctx.vault.total_shares as nat,
        );
    }
}

/// Redeems `shares` of the backer's shares at the vault's current share
/// price, rounded down, so that the vault never pays out more than it
/// holds. A payout of zero is no reason to reject: the shares are burnt all
/// the same.
pub fn handler(ctx: &mut Withdraw, shares: u64) -> (result: Result<
    WithdrawEffects,
    MusicValueError,
>)
    ensures
        applied(withdraw_outcome(*old(ctx), shares), *old(ctx), result, *final(ctx)),
        result is Ok <==> {
            &&& 0 < shares <= old(ctx).user_position.shares_held
            &&& shares <= old(ctx).vault.total_shares
        },
        result matches Ok(effects) ==> {
            &&& effects.transfer.amount == (shares * old(ctx).vault.total_deposited)
                / (old(ctx).vault.total_shares as int)
            &&& effects.transfer.amount <= old(ctx).vault.total_deposited
            &&& effects.burn.amount == shares
            &&& final(ctx).vault.total_deposited == old(ctx).vault.total_deposited
                - effects.transfer.amount
            &&& final(ctx).vault.total_shares == old(ctx).vault.total_shares - shares
            &&& final(ctx).user_position.shares_held == old(ctx).user_position.shares_held
                - shares
        },
        old(ctx).vault.well_formed() ==> final(ctx).vault.well_formed(),
        old(ctx).vault.fully_backed() ==> final(ctx).vault.fully_backed(),
{
    if shares == 0 {
        return Err(MusicValueError::ZeroWithdraw);
    }
    if ctx.user_position.shares_held < shares {
        return Err(
            MusicValueError::InsufficientShares {
                held: ctx.user_position.shares_held,
                requested: shares,
            },
        );
    }
    if ctx.vault.total_shares < shares {
        return Err(MusicValueError::ArithmeticOverflow { field: LedgerField::TotalShares });
    }
    proof {
        lemma_withdraw_pays_pro_rata(*ctx, shares);
    }
    let payout = redeemable_value(shares, ctx.vault.total_deposited, ctx.vault.total_shares);
    let effects = WithdrawEffects {
        transfer: Transfer {
            from: ctx.vault.vault_token_account,
            to: ctx.user_usdc,
            authority: ctx.vault_key,
            amount: payout,
        },
        burn: Burn {
            mint: ctx.vault.share_mint,
            from: ctx.user_shares,
            authority: ctx.user,
            amount: shares,
        },
    };
    ctx.vault.total_deposited = ctx.vault.total_deposited - payout;
    ctx.vault.total_shares = ctx.vault.total_shares - shares;
    ctx.user_position.shares_held = ctx.user_position.shares_held - shares;
    Ok(effects)
}

} // verus!
