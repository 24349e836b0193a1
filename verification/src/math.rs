//! The arithmetic of redemption: what a number of shares is worth.

use vstd::prelude::*;

verus! {

/// The value that `shares` shares redeem from a vault holding
/// `total_deposited` against `total_shares` shares: their pro-rata part,
/// rounded down.
pub open spec fn redeemable(shares: nat, total_deposited: nat, total_shares: nat) -> nat
    recommends
        total_shares > 0,
{
    (shares * total_deposited) / total_shares
}

/// Redeeming no more shares than exist pays out no more than the vault holds.
pub proof fn lemma_redeemable_bounded(shares: nat, total_deposited: nat, total_shares: nat)
    requires
        0 < total_shares,
        shares <= total_shares,
    ensures
        redeemable(shares, total_deposited, total_shares) <= total_deposited,
{
    assert((shares * total_deposited) / total_shares <= total_deposited) by (nonlinear_arith)
        requires
            0 < total_shares,
            shares <= total_shares,
    ;
}

/// Redeeming every share pays out everything.
pub proof fn lemma_redeemable_all(total_deposited: nat, total_shares: nat)
    requires
        0 < total_shares,
    ensures
        redeemable(total_shares, total_deposited, total_shares) == total_deposited,
{
    assert((total_shares * total_deposited) / total_shares == total_deposited)
        by (nonlinear_arith)
        requires
            0 < total_shares,
    ;
}

/// More value in the vault never makes a share worth less.
pub proof fn lemma_redeemable_grows_with_value(
    shares: nat,
    total_deposited: nat,
    more_deposited: nat,
    total_shares: nat,
)
    requires
        0 < total_shares,
        total_deposited <= more_deposited,
    ensures
        redeemable(shares, total_deposited, total_shares) <= redeemable(
            shares,
            more_deposited,
            total_shares,
        ),
{
    assert((shares * total_deposited) / total_shares <= (shares * more_deposited) / total_shares)
        by (nonlinear_arith)
        requires
            0 < total_shares,
            total_deposited <= more_deposited,
    ;
}

/// In a vault where every share is backed by a unit of value, the shares
/// that stay after a redemption are still backed.
pub proof fn lemma_redeemable_keeps_backing(shares: nat, total_deposited: nat, total_shares: nat)
    requires
        0 < total_shares,
        shares <= total_shares,
        total_shares <= total_deposited,
    ensures
        total_shares - shares <= total_deposited - redeemable(
            shares,
            total_deposited,
            total_shares,
        ),
{
    let payout = (shares * total_deposited) / total_shares;
    assert(payout * total_shares <= shares * total_deposited) by (nonlinear_arith)
        requires
            0 < total_shares,
            payout == (shares * total_deposited) / total_shares,
    ;
    assert(total_shares - shares <= total_deposited - payout) by (nonlinear_arith)
        requires
            0 < total_shares,
            shares <= total_shares,
            total_shares <= total_deposited,
            payout * total_shares <= shares * total_deposited,
    ;
}

/// Computes the value that `shares` shares redeem. The product is taken in
/// 128 bits, so no intermediate result overflows.
pub fn redeemable_value(shares: u64, total_deposited: u64, total_shares: u64) -> (payout: u64)
    requires
        total_shares > 0,
        redeemable(shares as nat, total_deposited as nat, total_shares as nat) <= u64::MAX,
    ensures
        payout == redeemable(shares as nat, total_deposited as nat, total_shares as nat),
{
    assert(shares * total_deposited <= u128::MAX) by (nonlinear_arith)
        requires
            shares <= u64::MAX,
            total_deposited <= u64::MAX,
    ;
    let product: u128 = (shares as u128) * (total_deposited as u128);
    (product / (total_shares as u128)) as u64
}

} // verus!
