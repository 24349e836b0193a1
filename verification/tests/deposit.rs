use music_value::errors::{LedgerField, MusicValueError};
use music_value::identity::Identity;
use music_value::instructions::deposit::{handler, Deposit, DepositEffects};
use music_value::requests::{MintTo, Transfer};
use music_value::state::{TrackVault, UserPosition};

fn key(n: u8) -> Identity {
    Identity::new([n; 32])
}

fn vault(total_deposited: u64, cap: u64, total_shares: u64) -> TrackVault {
    TrackVault {
        authority: key(1),
        audius_track_id: "D7KyZ".to_string(),
        usdc_mint: key(3),
        vault_token_account: key(4),
        share_mint: key(5),
        total_deposited,
        cap,
        total_shares,
        created_at: 1_600_000_000,
        bump: 254,
        royalty_pct: 30,
        distribution_interval: 0,
        vault_duration_months: 6,
        pledge_note: "thanks".to_string(),
        total_yield_distributed: 0,
    }
}

fn accounts(vault: TrackVault, user_position: Option<UserPosition>) -> Deposit {
    Deposit {
        user: key(10),
        vault_key: key(2),
        vault,
        user_position,
        position_bump: 251,
        user_usdc: key(11),
        user_shares: key(12),
        unix_timestamp: 1_650_000_000,
    }
}

#[test]
fn deposit_of_nothing_is_rejected() {
    let mut ctx = accounts(vault(0, 100, 0), None);
    let before = ctx.clone();
    assert_eq!(handler(&mut ctx, 0), Err(MusicValueError::ZeroDeposit));
    assert_eq!(ctx, before);
}

#[test]
fn first_deposit_opens_the_position() {
    let mut ctx = accounts(vault(0, 100, 0), None);
    let effects = handler(&mut ctx, 40).unwrap();
    assert_eq!(
        ctx.user_position,
        Some(UserPosition {
            owner: key(10),
            vault: key(2),
            shares_held: 40,
            total_deposited: 40,
            deposited_at: 1_650_000_000,
            bump: 251,
        })
    );
    assert_eq!(ctx.vault, vault(40, 100, 40));
    assert_eq!(
        effects,
        DepositEffects {
            transfer: Transfer { from: key(11), to: key(4), authority: key(10), amount: 40 },
            mint_to: MintTo { mint: key(5), to: key(12), authority: key(2), amount: 40 },
        }
    );
}

#[test]
fn later_deposit_adds_to_the_position() {
    let existing = UserPosition {
        owner: key(10),
        vault: key(2),
        shares_held: 15,
        total_deposited: 90,
        deposited_at: 1_610_000_000,
        bump: 7,
    };
    let mut ctx = accounts(vault(60, 100, 50), Some(existing));
    let effects = handler(&mut ctx, 25).unwrap();
    assert_eq!(
        ctx.user_position,
        Some(UserPosition {
            owner: key(10),
            vault: key(2),
            shares_held: 40,
            total_deposited: 115,
            deposited_at: 1_610_000_000,
            bump: 251,
        })
    );
    assert_eq!(ctx.vault, vault(85, 100, 75));
    assert_eq!(effects.transfer.amount, 25);
    assert_eq!(effects.mint_to.amount, 25);
}

#[test]
fn position_opened_at_time_zero_is_not_opened_again() {
    let mut ctx = accounts(vault(0, 100, 0), None);
    ctx.unix_timestamp = 0;
    handler(&mut ctx, 10).unwrap();
    assert_eq!(ctx.user_position.unwrap().deposited_at, 0);
    ctx.unix_timestamp = 77;
    ctx.user = key(99);
    handler(&mut ctx, 10).unwrap();
    let position = ctx.user_position.unwrap();
    assert_eq!(position.deposited_at, 0);
    assert_eq!(position.owner, key(10));
    assert_eq!(position.shares_held, 20);
}

#[test]
fn cap_is_checked_after_the_amount() {
    let mut ctx = accounts(vault(100, 100, 100), None);
    assert_eq!(handler(&mut ctx, 0), Err(MusicValueError::ZeroDeposit));
    assert_eq!(
        handler(&mut ctx, 1),
        Err(MusicValueError::VaultCapExceeded { cap: 100, total_deposited: 100, amount: 1 })
    );
}

#[test]
fn deposit_that_overflows_the_value_exceeds_the_cap() {
    let mut ctx = accounts(vault(u64::MAX - 1, u64::MAX, 5), None);
    let before = ctx.clone();
    assert_eq!(
        handler(&mut ctx, 2),
        Err(MusicValueError::VaultCapExceeded {
            cap: u64::MAX,
            total_deposited: u64::MAX - 1,
            amount: 2
        })
    );
    assert_eq!(ctx, before);
    assert!(handler(&mut ctx, 1).is_ok());
    assert_eq!(ctx.vault.total_deposited, u64::MAX);
}

#[test]
fn overflow_of_the_outstanding_shares_is_rejected() {
    let mut ctx = accounts(vault(0, u64::MAX, u64::MAX), None);
    let before = ctx.clone();
    assert_eq!(
        handler(&mut ctx, 1),
        Err(MusicValueError::ArithmeticOverflow { field: LedgerField::TotalShares })
    );
    assert_eq!(ctx, before);
}

#[test]
fn overflow_of_the_position_is_rejected() {
    let mut held = UserPosition {
        owner: key(10),
        vault: key(2),
        shares_held: u64::MAX - 3,
        total_deposited: 0,
        deposited_at: 1,
        bump: 1,
    };
    let mut ctx = accounts(vault(0, 100, 0), Some(held));
    let before = ctx.clone();
    assert_eq!(
        handler(&mut ctx, 4),
        Err(MusicValueError::ArithmeticOverflow { field: LedgerField::SharesHeld })
    );
    assert_eq!(ctx, before);

    held.shares_held = 0;
    held.total_deposited = u64::MAX;
    let mut ctx = accounts(vault(0, 100, 0), Some(held));
    let before = ctx.clone();
    assert_eq!(
        handler(&mut ctx, 100),
        Err(MusicValueError::ArithmeticOverflow { field: LedgerField::PositionDeposited })
    );
    assert_eq!(ctx, before);

    held.total_deposited = u64::MAX - 100;
    let mut ctx = accounts(vault(0, 100, 0), Some(held));
    assert!(handler(&mut ctx, 100).is_ok());
    assert_eq!(ctx.user_position.unwrap().total_deposited, u64::MAX);
    assert_eq!(ctx.vault.total_deposited, ctx.vault.cap);
}
