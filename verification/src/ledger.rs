//! A vault seen together with the positions of all its backers, and what
//! holds of it after any sequence of operations.
//!
//! Everything here is specification: the operations themselves are the
//! handlers of `instructions`, and a step of the ledger is defined by their
//! outcomes.

use vstd::prelude::*;
use crate::identity::Identity;
use crate::instructions::deposit::{deposit_outcome, Deposit};
use crate::instructions::distribute_yield::{distribute_yield_outcome, DistributeYield};
use crate::instructions::update_pledge::{update_pledge_outcome, UpdatePledge};
use crate::instructions::withdraw::{lemma_withdraw_pays_pro_rata, withdraw_outcome, Withdraw};
use crate::state::{shares_held_by, TrackVault, UserPosition};

verus! {

/// One operation on a vault that exists, with the accounts and arguments it
/// is called with. The ledger supplies the vault and the position: those
/// that the accounts carry are not looked at.
#[allow(inconsistent_fields)]
pub enum Operation {
    Deposit { accounts: Deposit, amount: u64 },
    Withdraw { accounts: Withdraw, shares: u64 },
    DistributeYield { accounts: DistributeYield, amount: u64 },
    UpdatePledge {
        accounts: UpdatePledge,
        royalty_pct: u8,
        distribution_interval: u8,
        vault_duration_months: u16,
        pledge_note: String,
    },
}

/// A vault and the positions of its backers, in the order in which they
/// were opened.
pub struct Ledger {
    /// The address of `vault`.
    pub vault_key: Identity,
    pub vault: TrackVault,
    pub positions: Seq<UserPosition>,
}

/// What operations asked the token program to move, counting the accepted
/// operations only.
pub struct Tally {
    /// Value transferred into the vault by deposits.
    pub deposited: nat,
    /// Shares minted by deposits.
    pub minted: nat,
    /// Value transferred out of the vault by withdrawals.
    pub paid_out: nat,
    /// Shares burnt by withdrawals.
    pub redeemed: nat,
    /// Value transferred into the vault as yield.
    pub yielded: nat,
}

/// The shares that the positions hold, all together.
pub open spec fn shares_held_in(positions: Seq<UserPosition>) -> nat
    decreases positions.len(),
{
    if positions.len() == 0 {
        0
    } else {
        shares_held_in(positions.drop_last()) + positions.last().shares_held as nat
    }
}

impl Tally {
    /// Nothing moved.
    pub open spec fn zero() -> Tally {
        Tally { deposited: 0, minted: 0, paid_out: 0, redeemed: 0, yielded: 0 }
    }

    /// The movements of both tallies together.
    pub open spec fn plus(self, other: Tally) -> Tally {
        Tally {
            deposited: self.deposited + other.deposited,
            minted: self.minted + other.minted,
            paid_out: self.paid_out + other.paid_out,
            redeemed: self.redeemed + other.redeemed,
            yielded: self.yielded + other.yielded,
        }
    }
}

impl Ledger {
    /// The ledger of a vault that no backer has deposited into.
    pub open spec fn opened(vault_key: Identity, vault: TrackVault) -> Ledger {
        Ledger { vault_key, vault, positions: Seq::empty() }
    }

    /// The positions hold exactly the shares that the vault has outstanding.
    pub open spec fn balanced(self) -> bool {
        shares_held_in(self.positions) == self.vault.total_shares
    }

    /// No backer has two positions.
    pub open spec fn one_position_per_backer(self) -> bool {
        forall|i: int, j: int|
            0 <= i < j < self.positions.len() ==> self.positions[i].owner
                != self.positions[j].owner
    }

    /// Where the position of `owner` stands, if there is one.
    pub open spec fn position_index(self, owner: Identity) -> Option<int> {
        if exists|i: int| 0 <= i < self.positions.len() && self.positions[i].owner == owner {
            Some(choose|i: int| 0 <= i < self.positions.len() && self.positions[i].owner == owner)
        } else {
            None
        }
    }

    /// The position of `owner`, if there is one.
    pub open spec fn position_of(self, owner: Identity) -> Option<UserPosition> {
        match self.position_index(owner) {
            Some(i) => Some(self.positions[i]),
            None => None,
        }
    }

    /// The ledger with the position of `position.owner` set to `position`:
    /// replaced where the owner has one, appended where not.
    pub open spec fn with_position(self, position: UserPosition) -> Ledger {
        match self.position_index(position.owner) {
            Some(i) => Ledger { positions: self.positions.update(i, position), ..self },
            None => Ledger { positions: self.positions.push(position), ..self },
        }
    }

    /// The records that a deposit called with `accounts` works on.
    pub open spec fn deposit_accounts(self, accounts: Deposit) -> Deposit {
        Deposit {
            vault_key: self.vault_key,
            vault: self.vault,
            user_position: self.position_of(accounts.user),
            ..accounts
        }
    }

    /// The records that a withdrawal called with `accounts` works on: none
    /// where the backer has no position.
    pub open spec fn withdraw_accounts(self, accounts: Withdraw) -> Option<Withdraw> {
        match self.position_of(accounts.user) {
            Some(position) => Some(
                Withdraw {
                    vault_key: self.vault_key,
                    vault: self.vault,
                    user_position: position,
                    ..accounts
                },
            ),
            None => None,
        }
    }

    /// The ledger after one operation. A rejected operation leaves it as it
    /// is.
    pub open spec fn step(self, op: Operation) -> Ledger {
        match op {
            Operation::Deposit { accounts, amount } => match deposit_outcome(
                self.deposit_accounts(accounts),
                amount,
            ) {
                Ok((after, _)) => Ledger { vault: after.vault, ..self }.with_position(
                    after.user_position.unwrap(),
                ),
                Err(_) => self,
            },
            Operation::Withdraw { accounts, shares } => match self.withdraw_accounts(accounts) {
                Some(ctx) => match withdraw_outcome(ctx, shares) {
                    Ok((after, _)) => Ledger { vault: after.vault, ..self }.with_position(
                        after.user_position,
                    ),
                    Err(_) => self,
                },
                None => self,
            },
            Operation::DistributeYield { accounts, amount } => match distribute_yield_outcome(
                DistributeYield { vault: self.vault, ..accounts },
                amount,
            ) {
                Ok((after, _)) => Ledger { vault: after.vault, ..self },
                Err(_) => self,
            },
            Operation::UpdatePledge {
                accounts,
                royalty_pct,
                distribution_interval,
                vault_duration_months,
                pledge_note,
            } => match update_pledge_outcome(
                UpdatePledge { vault: self.vault, ..accounts },
                royalty_pct,
                distribution_interval,
                vault_duration_months,
                pledge_note,
            ) {
                Ok((after, _)) => Ledger { vault: after.vault, ..self },
                Err(_) => self,
            },
        }
    }

    /// What one operation asks the token program to move; nothing where it
    /// is rejected.
    pub open spec fn moved_by(self, op: Operation) -> Tally {
        match op {
            Operation::Deposit { accounts, amount } => match deposit_outcome(
                self.deposit_accounts(accounts),
                amount,
            ) {
                Ok((_, effects)) => Tally {
                    deposited: effects.transfer.amount as nat,
                    minted: effects.mint_to.amount as nat,
                    ..Tally::zero()
                },
                Err(_) => Tally::zero(),
            },
            Operation::Withdraw { accounts, shares } => match self.withdraw_accounts(accounts) {
                Some(ctx) => match withdraw_outcome(ctx, shares) {
                    Ok((_, effects)) => Tally {
                        paid_out: effects.transfer.amount as nat,
                        redeemed: effects.burn.amount as nat,
                        ..Tally::zero()
                    },
                    Err(_) => Tally::zero(),
                },
                None => Tally::zero(),
            },
            Operation::DistributeYield { accounts, amount } => match distribute_yield_outcome(
                DistributeYield { vault: self.vault, ..accounts },
                amount,
            ) {
                Ok((_, transfer)) => Tally { yielded: transfer.amount as nat, ..Tally::zero() },
                Err(_) => Tally::zero(),
            },
            Operation::UpdatePledge { .. } => Tally::zero(),
        }
    }

    /// The ledger after the operations `ops`, applied in order.
    pub open spec fn run(self, ops: Seq<Operation>) -> Ledger
        decreases ops.len(),
    {
        if ops.len() == 0 {
            self
        } else {
            self.run(ops.drop_last()).step(ops.last())
        }
    }

    /// What the operations `ops`, applied in order, move.
    pub open spec fn moved_over(self, ops: Seq<Operation>) -> Tally
        decreases ops.len(),
    {
        if ops.len() == 0 {
            Tally::zero()
        } else {
            self.moved_over(ops.drop_last()).plus(self.run(ops.drop_last()).moved_by(ops.last()))
        }
    }
}

/// No operation of `ops` distributes yield.
pub open spec fn without_yield(ops: Seq<Operation>) -> bool {
    forall|i: int| 0 <= i < ops.len() ==> !(#[trigger] ops[i] is DistributeYield)
}

/// Appending a position adds its shares to the sum.
pub proof fn lemma_shares_held_push(positions: Seq<UserPosition>, position: UserPosition)
    ensures
        shares_held_in(positions.push(position)) == shares_held_in(positions)
            + position.shares_held,
{
    assert(positions.push(position).drop_last() =~= positions);
}

/// Replacing a position changes the sum by the difference of the shares.
pub proof fn lemma_shares_held_update(
    positions: Seq<UserPosition>,
    i: int,
    position: UserPosition,
)
    requires
        0 <= i < positions.len(),
    ensures
        shares_held_in(positions.update(i, position)) == shares_held_in(positions)
            - positions[i].shares_held + position.shares_held,
    decreases positions.len(),
{
    let updated = positions.update(i, position);
    if i == positions.len() - 1 {
        assert(updated.drop_last() =~= positions.drop_last());
    } else {
        assert(updated.drop_last() =~= positions.drop_last().update(i, position));
        lemma_shares_held_update(positions.drop_last(), i, position);
    }
}

/// A position never holds more shares than all positions together.
pub proof fn lemma_shares_held_covers(positions: Seq<UserPosition>, i: int)
    requires
        0 <= i < positions.len(),
    ensures
        positions[i].shares_held <= shares_held_in(positions),
    decreases positions.len(),
{
    if i < positions.len() - 1 {
        lemma_shares_held_covers(positions.drop_last(), i);
    }
}

impl Ledger {
    /// Setting a backer's position changes the sum of the shares by the
    /// difference to what the backer held before.
    pub proof fn lemma_with_position_shares(self, position: UserPosition)
        ensures
            shares_held_in(self.with_position(position).positions) == shares_held_in(
                self.positions,
            ) - shares_held_by(self.position_of(position.owner)) + position.shares_held,
    {
        match self.position_index(position.owner) {
            Some(i) => {
                lemma_shares_held_update(self.positions, i, position);
            },
            None => {
                lemma_shares_held_push(self.positions, position);
            },
        }
    }

    /// Setting a backer's position gives no backer a second one.
    pub proof fn lemma_with_position_keeps_one_per_backer(self, position: UserPosition)
        requires
            self.one_position_per_backer(),
        ensures
            self.with_position(position).one_position_per_backer(),
    {
        let after = self.with_position(position).positions;
        match self.position_index(position.owner) {
            Some(k) => {
                assert forall|i: int, j: int| 0 <= i < j < after.len() implies after[i].owner
                    != after[j].owner by {
                    assert(self.positions[i].owner != self.positions[j].owner);
                }
            },
            None => {
                assert forall|i: int, j: int| 0 <= i < j < after.len() implies after[i].owner
                    != after[j].owner by {
                    if j < self.positions.len() {
                        assert(self.positions[i].owner != self.positions[j].owner);
                    } else {
                        assert(self.positions[i].owner != position.owner);
                    }
                }
            },
        }
    }

    /// The sum of the positions' shares equals the vault's outstanding
    /// shares after an operation, if it did before.
    pub proof fn lemma_step_keeps_balance(self, op: Operation)
        requires
            self.balanced(),
        ensures
            self.step(op).balanced(),
    {
        match op {
            Operation::Deposit { accounts, amount } => {
                let ctx = self.deposit_accounts(accounts);
                match deposit_outcome(ctx, amount) {
                    Ok((after, _)) => {
                        let moved = Ledger { vault: after.vault, ..self };
                        let position = after.user_position.unwrap();
                        assert(position.owner == accounts.user);
                        moved.lemma_with_position_shares(position);
                    },
                    Err(_) => {},
                }
            },
            Operation::Withdraw { accounts, shares } => {
                match self.withdraw_accounts(accounts) {
                    Some(ctx) => match withdraw_outcome(ctx, shares) {
                        Ok((after, _)) => {
                            let moved = Ledger { vault: after.vault, ..self };
                            assert(after.user_position.owner == accounts.user);
                            moved.lemma_with_position_shares(after.user_position);
                        },
                        Err(_) => {},
                    },
                    None => {},
                }
            },
            Operation::DistributeYield { .. } => {},
            Operation::UpdatePledge { .. } => {},
        }
    }

    /// No backer has two positions after an operation, if none had before.
    pub proof fn lemma_step_keeps_one_per_backer(self, op: Operation)
        requires
            self.one_position_per_backer(),
        ensures
            self.step(op).one_position_per_backer(),
    {
        match op {
            Operation::Deposit { accounts, amount } => {
                match deposit_outcome(self.deposit_accounts(accounts), amount) {
                    Ok((after, _)) => {
                        let moved = Ledger { vault: after.vault, ..self };
                        moved.lemma_with_position_keeps_one_per_backer(
                            after.user_position.unwrap(),
                        );
                    },
                    Err(_) => {},
                }
            },
            Operation::Withdraw { accounts, shares } => {
                match self.withdraw_accounts(accounts) {
                    Some(ctx) => match withdraw_outcome(ctx, shares) {
                        Ok((after, _)) => {
                            let moved = Ledger { vault: after.vault, ..self };
                            moved.lemma_with_position_keeps_one_per_backer(after.user_position);
                        },
                        Err(_) => {},
                    },
                    None => {},
                }
            },
            Operation::DistributeYield { .. } => {},
            Operation::UpdatePledge { .. } => {},
        }
    }

    /// The ledger of a vault without shares and without positions is
    /// balanced, and trivially holds one position per backer.
    pub proof fn lemma_opened_is_balanced(vault_key: Identity, vault: TrackVault)
        requires
            vault.total_shares == 0,
        ensures
            Ledger::opened(vault_key, vault).balanced(),
            Ledger::opened(vault_key, vault).one_position_per_backer(),
    {
    }

    /// Sum of positions: whatever operations are applied to a balanced
    /// ledger, and whether they are accepted or rejected, the shares held in
    /// the positions always sum to the vault's outstanding shares.
    pub proof fn lemma_shares_always_sum_to_total(self, ops: Seq<Operation>)
        requires
            self.balanced(),
        ensures
            self.run(ops).balanced(),
        decreases ops.len(),
    {
        if ops.len() > 0 {
            self.lemma_shares_always_sum_to_total(ops.drop_last());
            self.run(ops.drop_last()).lemma_step_keeps_balance(ops.last());
        }
    }

    /// Sum of positions, from creation on: in the ledger of a vault that
    /// was opened without shares, the positions hold exactly the outstanding
    /// shares after any sequence of operations, and no backer has two
    /// positions.
    pub proof fn lemma_opened_ledger_stays_balanced(
        vault_key: Identity,
        vault: TrackVault,
        ops: Seq<Operation>,
    )
        requires
            vault.total_shares == 0,
        ensures
            Ledger::opened(vault_key, vault).run(ops).balanced(),
            Ledger::opened(vault_key, vault).run(ops).one_position_per_backer(),
    {
        let ledger = Ledger::opened(vault_key, vault);
        Ledger::lemma_opened_is_balanced(vault_key, vault);
        ledger.lemma_shares_always_sum_to_total(ops);
        ledger.lemma_one_position_per_backer_always(ops);
    }

    /// Conservation: after any sequence of operations the vault holds what
    /// it held before, plus what the accepted deposits and yield
    /// distributions transferred in, less what the accepted withdrawals
    /// transferred out; and it has outstanding the shares it had before, plus
    /// those minted, less those burnt. Shares are minted one for each unit
    /// deposited. Where no operation distributes yield, no yield enters the
    /// sum.
    pub proof fn lemma_conservation(self, ops: Seq<Operation>)
        ensures
            self.run(ops).vault.total_deposited == self.vault.total_deposited + self.moved_over(
                ops,
            ).deposited + self.moved_over(ops).yielded - self.moved_over(ops).paid_out,
            self.run(ops).vault.total_shares == self.vault.total_shares + self.moved_over(
                ops,
            ).minted - self.moved_over(ops).redeemed,
            self.run(ops).vault.total_yield_distributed == self.vault.total_yield_distributed
                + self.moved_over(ops).yielded,
            self.moved_over(ops).minted == self.moved_over(ops).deposited,
            without_yield(ops) ==> self.moved_over(ops).yielded == 0,
        decreases ops.len(),
    {
        if ops.len() > 0 {
            let earlier = ops.drop_last();
            self.lemma_conservation(earlier);
            if without_yield(ops) {
                assert forall|i: int| 0 <= i < earlier.len() implies !(
                #[trigger] earlier[i] is DistributeYield) by {
                    assert(earlier[i] == ops[i]);
                }
                assert(!(ops[ops.len() - 1] is DistributeYield));
            }
            let before = self.run(earlier);
            match ops.last() {
                Operation::Withdraw { accounts, shares } => {
                    match before.withdraw_accounts(accounts) {
                        Some(ctx) => {
                            if withdraw_outcome(ctx, shares) is Ok {
                                lemma_withdraw_pays_pro_rata(ctx, shares);
                            }
                        },
                        None => {},
                    }
                },
                _ => {},
            }
        }
    }

    /// Conservation without yield: over operations of which none distributes
    /// yield, the vault's value changes by the accepted deposits less the
    /// payouts of the accepted withdrawals, and its outstanding shares by
    /// the accepted deposits less the shares withdrawn. For a vault opened
    /// just before, both start at zero.
    pub proof fn lemma_conservation_without_yield(self, ops: Seq<Operation>)
        requires
            without_yield(ops),
        ensures
            self.run(ops).vault.total_deposited == self.vault.total_deposited + self.moved_over(
                ops,
            ).deposited - self.moved_over(ops).paid_out,
            self.run(ops).vault.total_shares == self.vault.total_shares + self.moved_over(
                ops,
            ).deposited - self.moved_over(ops).redeemed,
    {
        self.lemma_conservation(ops);
    }

    /// Every share stays backed by a unit of value: whatever operations are
    /// applied, a vault that holds at least as much value as it has shares
    /// outstanding keeps doing so, and a vault within its bounds stays
    /// within them.
    pub proof fn lemma_backing_is_kept(self, ops: Seq<Operation>)
        ensures
            self.vault.fully_backed() ==> self.run(ops).vault.fully_backed(),
            self.vault.well_formed() ==> self.run(ops).vault.well_formed(),
        decreases ops.len(),
    {
        if ops.len() > 0 {
            self.lemma_backing_is_kept(ops.drop_last());
            let before = self.run(ops.drop_last());
            match ops.last() {
                Operation::Withdraw { accounts, shares } => {
                    match before.withdraw_accounts(accounts) {
                        Some(ctx) => {
                            if withdraw_outcome(ctx, shares) is Ok {
                                lemma_withdraw_pays_pro_rata(ctx, shares);
                            }
                        },
                        None => {},
                    }
                },
                _ => {},
            }
        }
    }

    /// In a balanced ledger no position holds more shares than the vault has
    /// outstanding.
    pub proof fn lemma_holding_within_outstanding(self, owner: Identity)
        requires
            self.balanced(),
            self.position_of(owner) is Some,
        ensures
            self.position_of(owner).unwrap().shares_held <= self.vault.total_shares,
    {
        lemma_shares_held_covers(self.positions, self.position_index(owner).unwrap());
    }

    /// In a balanced ledger no withdrawal fails on arithmetic: a backer's
    /// withdrawal is accepted exactly where it asks for at least one share
    /// and for no more than the backer holds.
    pub proof fn lemma_withdrawal_within_holding_is_accepted(self, accounts: Withdraw, shares: u64)
        requires
            self.balanced(),
            self.withdraw_accounts(accounts) is Some,
        ensures
            withdraw_outcome(self.withdraw_accounts(accounts).unwrap(), shares) is Ok <==> 0
                < shares <= self.position_of(accounts.user).unwrap().shares_held,
    {
        self.lemma_holding_within_outstanding(accounts.user);
    }

    /// In a balanced ledger whose vault backs every share, a deposit is
    /// accepted exactly where it is above zero, stays within the cap, and
    /// the backer's count of all value ever deposited stays in range. A
    /// deposit that lands on the cap is within it.
    pub proof fn lemma_deposit_within_cap_is_accepted(self, accounts: Deposit, amount: u64)
        requires
            self.balanced(),
            self.vault.fully_backed(),
        ensures
            deposit_outcome(self.deposit_accounts(accounts), amount) is Ok <==> {
                &&& amount > 0
                &&& self.vault.total_deposited + amount <= self.vault.cap
                &&& self.position_of(accounts.user) matches Some(position)
                    ==> position.total_deposited + amount <= u64::MAX
            },
    {
        if self.position_of(accounts.user) is Some {
            self.lemma_holding_within_outstanding(accounts.user);
        }
    }

    /// What creation fixed stays fixed: no sequence of operations changes
    /// the vault's authority, track, mints, value account, cap, time of
    /// creation or address, and the yield counter never falls.
    pub proof fn lemma_vault_identity_is_kept(self, ops: Seq<Operation>)
        ensures
            self.run(ops).vault_key == self.vault_key,
            self.run(ops).vault.authority == self.vault.authority,
            self.run(ops).vault.audius_track_id == self.vault.audius_track_id,
            self.run(ops).vault.usdc_mint == self.vault.usdc_mint,
            self.run(ops).vault.vault_token_account == self.vault.vault_token_account,
            self.run(ops).vault.share_mint == self.vault.share_mint,
            self.run(ops).vault.cap == self.vault.cap,
            self.run(ops).vault.created_at == self.vault.created_at,
            self.run(ops).vault.bump == self.vault.bump,
            self.run(ops).vault.total_yield_distributed >= self.vault.total_yield_distributed,
        decreases ops.len(),
    {
        if ops.len() > 0 {
            self.lemma_vault_identity_is_kept(ops.drop_last());
        }
    }

    /// Where each backer has one position, a backer's position is where
    /// `position_index` says, and nowhere else.
    pub proof fn lemma_position_index_is_unique(self, i: int)
        requires
            self.one_position_per_backer(),
            0 <= i < self.positions.len(),
        ensures
            self.position_index(self.positions[i].owner) == Some(i),
    {
        let owner = self.positions[i].owner;
        let found = choose|j: int|
            0 <= j < self.positions.len() && self.positions[j].owner == owner;
        if found < i {
            assert(self.positions[found].owner != self.positions[i].owner);
        } else if i < found {
            assert(self.positions[i].owner != self.positions[found].owner);
        }
    }

    /// Setting one backer's position leaves the position of every other
    /// backer as it is, and makes the given one the position of its owner.
    pub proof fn lemma_with_position_sets_one(self, position: UserPosition, owner: Identity)
        requires
            self.one_position_per_backer(),
        ensures
            self.with_position(position).position_of(owner) == if owner == position.owner {
                Some(position)
            } else {
                self.position_of(owner)
            },
    {
        let after = self.with_position(position);
        self.lemma_with_position_keeps_one_per_backer(position);
        let at = match self.position_index(position.owner) {
            Some(i) => i,
            None => self.positions.len() as int,
        };
        assert(after.positions[at] == position);
        if owner == position.owner {
            after.lemma_position_index_is_unique(at);
        } else {
            match self.position_index(owner) {
                Some(k) => {
                    assert(after.positions[k] == self.positions[k]);
                    after.lemma_position_index_is_unique(k);
                },
                None => {
                    if after.position_index(owner) is Some {
                        let j = after.position_index(owner).unwrap();
                        assert(after.positions[j].owner == owner);
                        assert(j != at);
                        assert(self.positions[j].owner == owner);
                    }
                },
            }
        }
    }

    /// A position, once opened, stays its backer's: no operation closes it
    /// or changes its owner, its vault or the time of the first deposit, and
    /// what the backer has deposited in all never falls.
    pub proof fn lemma_step_keeps_positions(self, op: Operation, owner: Identity)
        requires
            self.one_position_per_backer(),
            self.position_of(owner) is Some,
        ensures
            self.step(op).position_of(owner) matches Some(after) && {
                let before = self.position_of(owner).unwrap();
                &&& after.owner == before.owner
                &&& after.vault == before.vault
                &&& after.deposited_at == before.deposited_at
                &&& after.total_deposited >= before.total_deposited
            },
    {
        match op {
            Operation::Deposit { accounts, amount } => {
                match deposit_outcome(self.deposit_accounts(accounts), amount) {
                    Ok((after, _)) => {
                        let moved = Ledger { vault: after.vault, ..self };
                        let position = after.user_position.unwrap();
                        assert(position.owner == accounts.user);
                        assert(moved.position_of(owner) == self.position_of(owner));
                        moved.lemma_with_position_sets_one(position, owner);
                    },
                    Err(_) => {},
                }
            },
            Operation::Withdraw { accounts, shares } => {
                match self.withdraw_accounts(accounts) {
                    Some(ctx) => match withdraw_outcome(ctx, shares) {
                        Ok((after, _)) => {
                            let moved = Ledger { vault: after.vault, ..self };
                            assert(after.user_position.owner == accounts.user);
                            assert(moved.position_of(owner) == self.position_of(owner));
                            moved.lemma_with_position_sets_one(after.user_position, owner);
                        },
                        Err(_) => {},
                    },
                    None => {},
                }
            },
            Operation::DistributeYield { .. } | Operation::UpdatePledge { .. } => {
                assert(self.step(op).positions == self.positions);
                assert(self.step(op).position_of(owner) == self.position_of(owner));
            },
        }
    }

    /// The same over any sequence of operations.
    pub proof fn lemma_positions_are_kept(self, ops: Seq<Operation>, owner: Identity)
        requires
            self.one_position_per_backer(),
            self.position_of(owner) is Some,
        ensures
            self.run(ops).position_of(owner) matches Some(after) && {
                let before = self.position_of(owner).unwrap();
                &&& after.owner == before.owner
                &&& after.vault == before.vault
                &&& after.deposited_at == before.deposited_at
                &&& after.total_deposited >= before.total_deposited
            },
        decreases ops.len(),
    {
        if ops.len() > 0 {
            self.lemma_positions_are_kept(ops.drop_last(), owner);
            let before = self.run(ops.drop_last());
            if !before.one_position_per_backer() {
                self.lemma_one_position_per_backer_always(ops.drop_last());
            }
            before.lemma_step_keeps_positions(ops.last(), owner);
        }
    }

    /// No backer ever has two positions, if none had to begin with.
    pub proof fn lemma_one_position_per_backer_always(self, ops: Seq<Operation>)
        requires
            self.one_position_per_backer(),
        ensures
            self.run(ops).one_position_per_backer(),
        decreases ops.len(),
    {
        if ops.len() > 0 {
            self.lemma_one_position_per_backer_always(ops.drop_last());
            self.run(ops.drop_last()).lemma_step_keeps_one_per_backer(ops.last());
        }
    }
}

} // verus!
