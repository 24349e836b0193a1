use music_value::errors::MusicValueError;
use music_value::identity::Identity;
use music_value::instructions::update_pledge::{handler, UpdatePledge};
use music_value::state::TrackVault;

fn key(n: u8) -> Identity {
    Identity::new([n; 32])
}

fn vault() -> TrackVault {
    TrackVault {
        authority: key(1),
        audius_track_id: "D7KyZ".to_string(),
        usdc_mint: key(3),
        vault_token_account: key(4),
        share_mint: key(5),
        total_deposited: 700,
        cap: 1000,
        total_shares: 650,
        created_at: 1_600_000_000,
        bump: 254,
        royalty_pct: 30,
        distribution_interval: 0,
        vault_duration_months: 6,
        pledge_note: "thanks".to_string(),
        total_yield_distributed: 50,
    }
}

fn accounts() -> UpdatePledge {
    UpdatePledge { authority: key(1), vault: vault() }
}

#[test]
fn pledge_update_replaces_the_four_terms_only() {
    let mut ctx = accounts();
    assert_eq!(handler(&mut ctx, 45, 2, 18, "more for you".to_string()), Ok(()));
    assert_eq!(
        ctx.vault,
        TrackVault {
            royalty_pct: 45,
            distribution_interval: 2,
            vault_duration_months: 18,
            pledge_note: "more for you".to_string(),
            ..vault()
        }
    );
    assert_eq!(ctx.authority, key(1));
    // nothing of the earlier terms is kept
    assert_eq!(handler(&mut ctx, 0, 0, 0, String::new()), Ok(()));
    assert_eq!(
        ctx.vault,
        TrackVault {
            royalty_pct: 0,
            distribution_interval: 0,
            vault_duration_months: 0,
            pledge_note: String::new(),
            ..vault()
        }
    );
}

#[test]
fn only_the_authority_updates_the_pledge() {
    let mut ctx = accounts();
    ctx.authority = key(2);
    let before = ctx.clone();
    assert_eq!(handler(&mut ctx, 45, 2, 18, "x".to_string()), Err(MusicValueError::Unauthorized));
    assert_eq!(ctx, before);
    // the signer is checked before the terms
    assert_eq!(handler(&mut ctx, 200, 9, 18, "x".to_string()), Err(MusicValueError::Unauthorized));
}

#[test]
fn pledge_update_checks_the_bounds_of_creation() {
    let mut ctx = accounts();
    let before = ctx.clone();
    assert_eq!(
        handler(&mut ctx, 101, 9, 1, "n".repeat(201)),
        Err(MusicValueError::InvalidRoyaltyPct { royalty_pct: 101 })
    );
    assert_eq!(
        handler(&mut ctx, 100, 3, 1, "n".repeat(201)),
        Err(MusicValueError::InvalidDistributionInterval { distribution_interval: 3 })
    );
    assert_eq!(
        handler(&mut ctx, 100, 2, 1, "n".repeat(201)),
        Err(MusicValueError::PledgeNoteTooLong { len: 201 })
    );
    assert_eq!(ctx, before);
    assert_eq!(handler(&mut ctx, 100, 2, u16::MAX, "n".repeat(200)), Ok(()));
    assert_eq!(ctx.vault.vault_duration_months, u16::MAX);
    assert_eq!(ctx.vault.pledge_note, "n".repeat(200));
    assert_eq!(handler(&mut ctx, 1, 1, 1, "\u{e9}".repeat(200)), Ok(()));
    assert_eq!(
        handler(&mut ctx, 1, 1, 1, "\u{e9}".repeat(201)),
        Err(MusicValueError::PledgeNoteTooLong { len: 201 })
    );
}
