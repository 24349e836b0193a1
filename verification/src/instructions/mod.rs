//! The five operations on a vault, one module each.
//!
//! Every operation is handed the records it works on by mutable reference
//! and is all or nothing: accepted, it updates the records and returns the
//! token movements that go with the update; rejected, it returns the reason
//! and leaves the records as they were. What an operation does on given
//! records is written down once, as its `*_outcome` function.

pub mod deposit;
pub mod distribute_yield;
pub mod initialize_vault;
pub mod update_pledge;
pub mod withdraw;

use vstd::prelude::*;
use crate::errors::MusicValueError;

verus! {

/// An operation with the given `outcome` on the records `before` has
/// returned `result` and left the records as `after`.
pub open spec fn applied<Records, Effects>(
    outcome: Result<(Records, Effects), MusicValueError>,
    before: Records,
    result: Result<Effects, MusicValueError>,
    after: Records,
) -> bool {
    match outcome {
        Ok((records, effects)) => result == Ok::<Effects, MusicValueError>(effects)
            && after == records,
        Err(rejection) => result == Err::<Effects, MusicValueError>(rejection)
            && after == before,
    }
}

} // verus!
