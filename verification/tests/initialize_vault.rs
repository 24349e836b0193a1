use music_value::errors::MusicValueError;
use music_value::identity::Identity;
use music_value::instructions::initialize_vault::{handler, InitializeVault, InitializeVaultEffects};
use music_value::requests::{OpenMint, OpenTokenAccount};
use music_value::state::{TrackVault, SHARE_DECIMALS};

fn key(n: u8) -> Identity {
    Identity::new([n; 32])
}

fn empty_slot() -> InitializeVault {
    InitializeVault {
        authority: key(1),
        vault_key: key(2),
        vault: None,
        vault_bump: 253,
        usdc_mint: key(3),
        vault_token_account: key(4),
        share_mint: key(5),
        unix_timestamp: 1_723_456_789,
    }
}

fn create(
    track: &str,
    cap: u64,
    royalty_pct: u8,
    interval: u8,
    note: &str,
) -> Result<InitializeVaultEffects, MusicValueError> {
    let mut ctx = empty_slot();
    let result =
        handler(&mut ctx, track.to_string(), cap, royalty_pct, interval, 12, note.to_string());
    if result.is_err() {
        assert_eq!(ctx, empty_slot());
    }
    result
}

#[test]
fn new_vault_starts_empty() {
    let mut ctx = empty_slot();
    let effects =
        handler(&mut ctx, "abc123".to_string(), 5000, 15, 2, 36, "see you on tour".to_string())
            .unwrap();
    assert_eq!(
        ctx.vault,
        Some(TrackVault {
            authority: key(1),
            audius_track_id: "abc123".to_string(),
            usdc_mint: key(3),
            vault_token_account: key(4),
            share_mint: key(5),
            total_deposited: 0,
            cap: 5000,
            total_shares: 0,
            created_at: 1_723_456_789,
            bump: 253,
            royalty_pct: 15,
            distribution_interval: 2,
            vault_duration_months: 36,
            pledge_note: "see you on tour".to_string(),
            total_yield_distributed: 0,
        })
    );
    assert_eq!(
        effects,
        InitializeVaultEffects {
            token_account: OpenTokenAccount { address: key(4), mint: key(3), authority: key(2) },
            share_mint: OpenMint { address: key(5), decimals: 6, authority: key(2) },
        }
    );
    assert_eq!(SHARE_DECIMALS, 6);
    // all but the vault slot is left alone
    assert_eq!(InitializeVault { vault: None, ..ctx }, empty_slot());
}

#[test]
fn track_id_of_32_characters_is_the_longest() {
    let longest = "a".repeat(32);
    assert!(create(&longest, 1, 0, 0, "").is_ok());
    let too_long = "a".repeat(33);
    assert_eq!(create(&too_long, 1, 0, 0, ""), Err(MusicValueError::TrackIdTooLong { len: 33 }));
    assert!(create("", 1, 0, 0, "").is_ok());
}

#[test]
fn track_id_is_measured_in_characters() {
    // characters of three bytes each
    let wide = "\u{20ac}".repeat(32);
    assert_eq!(wide.len(), 96);
    let mut ctx = empty_slot();
    assert!(handler(&mut ctx, wide.clone(), 1, 0, 0, 12, String::new()).is_ok());
    assert_eq!(ctx.vault.unwrap().audius_track_id, wide);
    let wider = "\u{20ac}".repeat(33);
    assert_eq!(create(&wider, 1, 0, 0, ""), Err(MusicValueError::TrackIdTooLong { len: 33 }));
}

#[test]
fn cap_of_zero_is_rejected() {
    assert_eq!(create("t", 0, 0, 0, ""), Err(MusicValueError::InvalidCap));
    assert!(create("t", 1, 0, 0, "").is_ok());
    assert!(create("t", u64::MAX, 0, 0, "").is_ok());
}

#[test]
fn royalty_above_one_hundred_is_rejected() {
    assert!(create("t", 1, 100, 0, "").is_ok());
    assert_eq!(
        create("t", 1, 101, 0, ""),
        Err(MusicValueError::InvalidRoyaltyPct { royalty_pct: 101 })
    );
    assert_eq!(
        create("t", 1, 255, 0, ""),
        Err(MusicValueError::InvalidRoyaltyPct { royalty_pct: 255 })
    );
}

#[test]
fn interval_is_one_of_three() {
    assert!(create("t", 1, 0, 0, "").is_ok());
    assert!(create("t", 1, 0, 1, "").is_ok());
    assert!(create("t", 1, 0, 2, "").is_ok());
    assert_eq!(
        create("t", 1, 0, 3, ""),
        Err(MusicValueError::InvalidDistributionInterval { distribution_interval: 3 })
    );
}

#[test]
fn pledge_note_of_200_characters_is_the_longest() {
    assert!(create("t", 1, 0, 0, &"n".repeat(200)).is_ok());
    assert_eq!(
        create("t", 1, 0, 0, &"n".repeat(201)),
        Err(MusicValueError::PledgeNoteTooLong { len: 201 })
    );
    // characters of four bytes each
    assert!(create("t", 1, 0, 0, &"\u{1f3b5}".repeat(200)).is_ok());
    assert_eq!(
        create("t", 1, 0, 0, &"\u{1f3b5}".repeat(201)),
        Err(MusicValueError::PledgeNoteTooLong { len: 201 })
    );
}

#[test]
fn first_broken_bound_is_reported() {
    let long_id = "a".repeat(40);
    let long_note = "n".repeat(300);
    assert_eq!(
        create(&long_id, 0, 200, 9, &long_note),
        Err(MusicValueError::TrackIdTooLong { len: 40 })
    );
    assert_eq!(create("t", 0, 200, 9, &long_note), Err(MusicValueError::InvalidCap));
    assert_eq!(
        create("t", 1, 200, 9, &long_note),
        Err(MusicValueError::InvalidRoyaltyPct { royalty_pct: 200 })
    );
    assert_eq!(
        create("t", 1, 20, 9, &long_note),
        Err(MusicValueError::InvalidDistributionInterval { distribution_interval: 9 })
    );
    assert_eq!(
        create("t", 1, 20, 1, &long_note),
        Err(MusicValueError::PledgeNoteTooLong { len: 300 })
    );
}

#[test]
fn existing_vault_is_never_replaced() {
    let mut ctx = empty_slot();
    handler(&mut ctx, "t".to_string(), 10, 1, 1, 1, "first".to_string()).unwrap();
    let before = ctx.clone();
    // valid terms
    assert_eq!(
        handler(&mut ctx, "t".to_string(), 20, 2, 2, 2, "second".to_string()),
        Err(MusicValueError::VaultAlreadyInitialized)
    );
    assert_eq!(ctx, before);
    // broken terms: the existing vault is still the reason
    assert_eq!(
        handler(&mut ctx, "t".repeat(50), 0, 255, 255, 0, String::new()),
        Err(MusicValueError::VaultAlreadyInitialized)
    );
    assert_eq!(ctx, before);
}
