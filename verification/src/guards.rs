//! The checks that run before an operation touches a record: who signs, and
//! whether the arguments are within their bounds.

use vstd::prelude::*;
use crate::errors::MusicValueError;
use crate::identity::Identity;
use crate::state::{
    text_len, TrackVault, MAX_DISTRIBUTION_INTERVAL, MAX_PLEDGE_NOTE_LEN, MAX_ROYALTY_PCT,
    MAX_TRACK_ID_LEN,
};

verus! {

/// The first bound that the terms of a pledge break, if any: the royalty
/// percentage, then the distribution interval, then the note's length.
pub open spec fn pledge_violation(
    royalty_pct: u8,
    distribution_interval: u8,
    pledge_note: Seq<char>,
) -> Option<MusicValueError> {
    if royalty_pct > MAX_ROYALTY_PCT {
        Some(MusicValueError::InvalidRoyaltyPct { royalty_pct })
    } else if distribution_interval > MAX_DISTRIBUTION_INTERVAL {
        Some(MusicValueError::InvalidDistributionInterval { distribution_interval })
    } else if pledge_note.len() > MAX_PLEDGE_NOTE_LEN {
        Some(MusicValueError::PledgeNoteTooLong { len: pledge_note.len() as usize })
    } else {
        None
    }
}

/// The first bound that the terms of a new vault break, if any: the track
/// id's length, then the cap, then the pledge.
pub open spec fn vault_terms_violation(
    audius_track_id: Seq<char>,
    cap: u64,
    royalty_pct: u8,
    distribution_interval: u8,
    pledge_note: Seq<char>,
) -> Option<MusicValueError> {
    if audius_track_id.len() > MAX_TRACK_ID_LEN {
        Some(MusicValueError::TrackIdTooLong { len: audius_track_id.len() as usize })
    } else if cap == 0 {
        Some(MusicValueError::InvalidCap)
    } else {
        pledge_violation(royalty_pct, distribution_interval, pledge_note)
    }
}

/// The result of a check: accepted where no bound is broken, else rejected
/// for the bound that is.
pub open spec fn verdict(violation: Option<MusicValueError>) -> Result<(), MusicValueError> {
    match violation {
        Some(rejection) => Err(rejection),
        None => Ok(()),
    }
}

/// Accepts the terms of a pledge that are within their bounds, and rejects
/// others for the first bound they break.
pub fn check_pledge(royalty_pct: u8, distribution_interval: u8, pledge_note: &String) -> (result:
    Result<(), MusicValueError>)
    ensures
        result == verdict(pledge_violation(royalty_pct, distribution_interval, pledge_note@)),
{
    if royalty_pct > MAX_ROYALTY_PCT {
        return Err(MusicValueError::InvalidRoyaltyPct { royalty_pct });
    }
    if distribution_interval > MAX_DISTRIBUTION_INTERVAL {
        return Err(MusicValueError::InvalidDistributionInterval { distribution_interval });
    }
    let len = text_len(pledge_note);
    if len > MAX_PLEDGE_NOTE_LEN {
        return Err(MusicValueError::PledgeNoteTooLong { len });
    }
    Ok(())
}

/// Accepts the terms of a new vault that are within their bounds, and
/// rejects others for the first bound they break.
pub fn check_vault_terms(
    audius_track_id: &String,
    cap: u64,
    royalty_pct: u8,
    distribution_interval: u8,
    pledge_note: &String,
) -> (result: Result<(), MusicValueError>)
    ensures
        result == verdict(
            vault_terms_violation(
                audius_track_id@,
                cap,
                royalty_pct,
                distribution_interval,
                pledge_note@,
            ),
        ),
{
    let len = text_len(audius_track_id);
    if len > MAX_TRACK_ID_LEN {
        return Err(MusicValueError::TrackIdTooLong { len });
    }
    if cap == 0 {
        return Err(MusicValueError::InvalidCap);
    }
    check_pledge(royalty_pct, distribution_interval, pledge_note)
}

/// Accepts `signer` if it is the authority of `vault`, and rejects every
/// other signer as unauthorized.
pub fn check_authority(vault: &TrackVault, signer: &Identity) -> (result: Result<
    (),
    MusicValueError,
>)
    ensures
        result == verdict(
            if vault.authority == *signer {
                None
            } else {
                Some(MusicValueError::Unauthorized)
            },
        ),
{
    if vault.authority == *signer {
        Ok(())
    } else {
        Err(MusicValueError::Unauthorized)
    }
}

} // verus!
