use music_value::errors::{LedgerField, MusicValueError};
use music_value::identity::Identity;
use music_value::instructions::distribute_yield::{handler, DistributeYield};
use music_value::requests::Transfer;
use music_value::state::TrackVault;

fn key(n: u8) -> Identity {
    Identity::new([n; 32])
}

fn vault(total_deposited: u64, total_shares: u64, total_yield_distributed: u64) -> TrackVault {
    TrackVault {
        authority: key(1),
        audius_track_id: "D7KyZ".to_string(),
        usdc_mint: key(3),
        vault_token_account: key(4),
        share_mint: key(5),
        total_deposited,
        cap: 500,
        total_shares,
        created_at: 1_600_000_000,
        bump: 254,
        royalty_pct: 30,
        distribution_interval: 0,
        vault_duration_months: 6,
        pledge_note: "thanks".to_string(),
        total_yield_distributed,
    }
}

fn accounts(vault: TrackVault) -> DistributeYield {
    DistributeYield { authority: key(1), vault, authority_usdc: key(21) }
}

#[test]
fn yield_grows_the_value_and_not_the_shares() {
    let mut ctx = accounts(vault(400, 400, 0));
    let transfer = handler(&mut ctx, 200).unwrap();
    assert_eq!(transfer, Transfer { from: key(21), to: key(4), authority: key(1), amount: 200 });
    assert_eq!(ctx.vault, vault(600, 400, 200));
    handler(&mut ctx, 1).unwrap();
    assert_eq!(ctx.vault, vault(601, 400, 201));
}

#[test]
fn yield_is_not_bounded_by_the_cap() {
    let mut ctx = accounts(vault(500, 500, 0));
    assert!(handler(&mut ctx, 10_000).is_ok());
    assert_eq!(ctx.vault.total_deposited, 10_500);
    assert_eq!(ctx.vault.cap, 500);
}

#[test]
fn only_the_authority_distributes_yield() {
    let mut ctx = accounts(vault(400, 400, 0));
    ctx.authority = key(66);
    let before = ctx.clone();
    assert_eq!(handler(&mut ctx, 200), Err(MusicValueError::Unauthorized));
    assert_eq!(ctx, before);
    // the signer is checked before anything else
    assert_eq!(handler(&mut ctx, 0), Err(MusicValueError::Unauthorized));
    // an identity that differs in one byte is another identity
    let mut bytes = [1u8; 32];
    bytes[31] = 2;
    ctx.authority = Identity::new(bytes);
    assert_eq!(handler(&mut ctx, 200), Err(MusicValueError::Unauthorized));
}

#[test]
fn yield_of_nothing_is_rejected() {
    let mut ctx = accounts(vault(400, 400, 0));
    let before = ctx.clone();
    assert_eq!(handler(&mut ctx, 0), Err(MusicValueError::ZeroDeposit));
    assert_eq!(ctx, before);
}

#[test]
fn yield_needs_shareholders() {
    let mut ctx = accounts(vault(0, 0, 0));
    let before = ctx.clone();
    assert_eq!(handler(&mut ctx, 5), Err(MusicValueError::NoShareholders));
    assert_eq!(ctx, before);
    // the amount is checked first
    assert_eq!(handler(&mut ctx, 0), Err(MusicValueError::ZeroDeposit));
    // value without shares is still no shareholder
    let mut ctx = accounts(vault(9, 0, 9));
    assert_eq!(handler(&mut ctx, 5), Err(MusicValueError::NoShareholders));
}

#[test]
fn overflow_of_the_value_is_rejected() {
    let mut ctx = accounts(vault(u64::MAX - 4, 1, 0));
    let before = ctx.clone();
    assert_eq!(
        handler(&mut ctx, 5),
        Err(MusicValueError::ArithmeticOverflow { field: LedgerField::TotalDeposited })
    );
    assert_eq!(ctx, before);
    assert!(handler(&mut ctx, 4).is_ok());
    assert_eq!(ctx.vault.total_deposited, u64::MAX);
}

#[test]
fn overflow_of_the_yield_counter_is_rejected() {
    let mut ctx = accounts(vault(10, 10, u64::MAX - 4));
    let before = ctx.clone();
    assert_eq!(
        handler(&mut ctx, 5),
        Err(MusicValueError::ArithmeticOverflow { field: LedgerField::TotalYieldDistributed })
    );
    assert_eq!(ctx, before);
    assert!(handler(&mut ctx, 4).is_ok());
    assert_eq!(ctx.vault.total_yield_distributed, u64::MAX);
    assert_eq!(ctx.vault.total_deposited, 14);
}
