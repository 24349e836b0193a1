//! Injecting yield into a vault: the one way in which backers gain.

use vstd::prelude::*;
use crate::errors::{LedgerField, MusicValueError};
use crate::guards::check_authority;
use crate::identity::Identity;
use crate::instructions::applied;
use crate::math::{lemma_redeemable_grows_with_value, redeemable};
use crate::requests::Transfer;
use crate::state::TrackVault;

verus! {

/// The records and accounts that a yield distribution works on.
#[derive(Debug, PartialEq, Eq)]
pub struct DistributeYield {
    /// The signer, who must be the vault's authority.
    pub authority: Identity,
    /// The vault that receives the yield.
    pub vault: TrackVault,
    /// The signer's value account, out of which the yield is paid.
    pub authority_usdc: Identity,
}

impl Clone for DistributeYield {
    fn clone(&self) -> (copy: DistributeYield)
        ensures
            copy == *self,
    {
        DistributeYield {
            authority: self.authority,
            vault: self.vault.clone(),
            authority_usdc: self.authority_usdc,
        }
    }
}

/// Why a distribution of `amount` is rejected, if it is. The checks run in
/// this order: the signer, the amount, the shareholders, then the ranges of
/// the counters. The cap bounds deposits only, not yield.
pub open spec fn distribute_yield_rejection(ctx: DistributeYield, amount: u64) -> Option<
    MusicValueError,
> {
    if ctx.vault.authority != ctx.authority {
        Some(MusicValueError::Unauthorized)
    } else if amount == 0 {
        Some(MusicValueError::ZeroDeposit)
    } else if ctx.vault.total_shares == 0 {
        Some(MusicValueError::NoShareholders)
    } else if ctx.vault.total_deposited + amount > u64::MAX {
        Some(MusicValueError::ArithmeticOverflow { field: LedgerField::TotalDeposited })
    } else if ctx.vault.total_yield_distributed + amount > u64::MAX {
        Some(MusicValueError::ArithmeticOverflow { field: LedgerField::TotalYieldDistributed })
    } else {
        None
    }
}

/// What a distribution of `amount` does: the records after it and the
/// transfer it asks for, or why it is rejected. No share is issued.
pub open spec fn distribute_yield_outcome(ctx: DistributeYield, amount: u64) -> Result<
    (DistributeYield, Transfer),
    MusicValueError,
> {
    match distribute_yield_rejection(ctx, amount) {
        Some(rejection) => Err(rejection),
        None => Ok(
            (
                DistributeYield {
                    vault: TrackVault {
                        total_deposited: (ctx.vault.total_deposited + amount) as u64,
                        total_yield_distributed: (ctx.vault.total_yield_distributed
                            + amount) as u64,
                        ..ctx.vault
                    },
                    ..ctx
                },
                Transfer {
                    from: ctx.authority_usdc,
                    to: ctx.vault.vault_token_account,
                    authority: ctx.authority,
                    amount,
                },
            ),
        ),
    }
}

/// Yield raises the share price: an accepted distribution adds exactly
/// `amount` to the vault's value and to its yield counter and leaves the
/// outstanding shares as they are, so that the share price strictly rises
/// and no number of shares redeems less than before.
pub proof fn lemma_yield_raises_share_price(ctx: DistributeYield, amount: u64, shares: u64)
    requires
        distribute_yield_outcome(ctx, amount) is Ok,
    ensures
        ({
            let (after, transfer) = distribute_yield_outcome(ctx, amount).unwrap();
            &&& transfer.amount == amount
            &&& after.vault.total_deposited == ctx.vault.total_deposited + amount
            &&& after.vault.total_yield_distributed == ctx.vault.total_yield_distributed
                + amount
            &&& after.vault.total_shares == ctx.vault.total_shares
            &&& ctx.vault.share_price_below(after.vault)
            &&& redeemable(
                shares as nat,
                ctx.vault.total_deposited as nat,
                ctx.vault.total_shares as nat,
            ) <= redeemable(
                shares as nat,
                after.vault.total_deposited as nat,
                after.vault.total_shares as nat,
            )
        }),
{
    let held = ctx.vault.total_shares as int;
    let before = ctx.vault.total_deposited as int;
    let after = before + amount;
    assert(before * held < after * held) by (nonlinear_arith)
        requires
            0 < held,
            before < after,
    ;
    lemma_redeemable_grows_with_value(
        shares as nat,
        before as nat,
        after as nat,
        held as nat,
    );
}

/// Adds `amount` of value to the vault without issuing shares, so that the
/// share price strictly rises. Only the vault's authority may do so, and
/// only while shares are outstanding.
pub fn handler(ctx: &mut DistributeYield, amount: u64) -> (result: Result<
    Transfer,
    MusicValueError,
>)
    ensures
        applied(distribute_yield_outcome(*old(ctx), amount), *old(ctx), result, *final(ctx)),
        result is Ok <==> {
            &&& old(ctx).vault.authority == old(ctx).authority
            &&& amount > 0
            &&& old(ctx).vault.total_shares > 0
            &&& old(ctx).vault.total_deposited + amount <= u64::MAX
            &&& old(ctx).vault.total_yield_distributed + amount <= u64::MAX
        },
        old(ctx).vault.authority != old(ctx).authority ==> result == Err::<
            Transfer,
            MusicValueError,
        >(MusicValueError::Unauthorized),
        result matches Ok(transfer) ==> {
            &&& transfer.amount == amount
            &&& final(ctx).vault.total_deposited == old(ctx).vault.total_deposited + amount
            &&& final(ctx).vault.total_yield_distributed
                == old(ctx).vault.total_yield_distributed + amount
            &&& final(ctx).vault.total_shares == old(ctx).vault.total_shares
            &&& old(ctx).vault.share_price_below(final(ctx).vault)
        },
        old(ctx).vault.well_formed() ==> final(ctx).vault.well_formed(),
        old(ctx).vault.fully_backed() ==> final(ctx).vault.fully_backed(),
{
    match check_authority(&ctx.vault, &ctx.authority) {
        Ok(()) => {},
        Err(rejection) => {
            return Err(rejection);
        },
    }
    if amount == 0 {
        return Err(MusicValueError::ZeroDeposit);
    }
    if ctx.vault.total_shares == 0 {
        return Err(MusicValueError::NoShareholders);
    }
    let total_deposited = match ctx.vault.total_deposited.checked_add(amount) {
        Some(sum) => sum,
        None => {
            return Err(MusicValueError::ArithmeticOverflow { field: LedgerField::TotalDeposited });
        },
    };
    let total_yield = match ctx.vault.total_yield_distributed.checked_add(amount) {
        Some(sum) => sum,
        None => {
            return Err(
                MusicValueError::ArithmeticOverflow { field: LedgerField::TotalYieldDistributed },
            );
        },
    };
    let transfer = Transfer {
        from: ctx.authority_usdc,
        to: ctx.vault.vault_token_account,
        authority: ctx.authority,
        amount,
    };
    proof {
        lemma_yield_raises_share_price(*ctx, amount, 0);
    }
    ctx.vault.total_deposited = total_deposited;
    ctx.vault.total_yield_distributed = total_yield;
    Ok(transfer)
}

} // verus!
