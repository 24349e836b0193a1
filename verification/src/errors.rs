//! The closed set of reasons for which an operation is rejected.

use vstd::prelude::*;

verus! {

/// The four families of rejection.
#[derive(Clone, Copy, Debug, PartialEq, Eq, Structural)]
pub enum ErrorKind {
    /// An argument is malformed; the caller can submit a corrected one.
    Validation,
    /// The arguments are well formed but the vault's state forbids the
    /// operation.
    BusinessRule,
    /// The signer is not the vault's authority.
    Authorization,
    /// A counter would leave the range of its integer type.
    ArithmeticSafety,
}

/// The counters of a vault and of a position.
#[derive(Clone, Copy, Debug, PartialEq, Eq, Structural)]
pub enum LedgerField {
    /// `TrackVault::total_deposited`
    TotalDeposited,
    /// `TrackVault::total_shares`
    TotalShares,
    /// `TrackVault::total_yield_distributed`
    TotalYieldDistributed,
    /// `UserPosition::shares_held`
    SharesHeld,
    /// `UserPosition::total_deposited`
    PositionDeposited,
}

/// Why an operation was rejected. A rejected operation changes nothing.
#[derive(Clone, Copy, Debug, PartialEq, Eq, Structural)]
pub enum MusicValueError {
    /// The deposit would raise the vault's value above its cap.
    VaultCapExceeded { cap: u64, total_deposited: u64, amount: u64 },
    /// A deposit or a yield injection of nothing.
    ZeroDeposit,
    /// The position holds fewer shares than the withdrawal asks for.
    InsufficientShares { held: u64, requested: u64 },
    /// A withdrawal of no shares.
    ZeroWithdraw,
    /// The track id is longer than `MAX_TRACK_ID_LEN` characters.
    TrackIdTooLong { len: usize },
    /// A vault needs a cap above zero.
    InvalidCap,
    /// The signer is not the vault's authority.
    Unauthorized,
    /// Yield cannot be distributed while no share is outstanding.
    NoShareholders,
    /// The royalty percentage is above `MAX_ROYALTY_PCT`.
    InvalidRoyaltyPct { royalty_pct: u8 },
    /// The distribution interval is none of monthly, quarterly, milestone.
    InvalidDistributionInterval { distribution_interval: u8 },
    /// The pledge note is longer than `MAX_PLEDGE_NOTE_LEN` characters.
    PledgeNoteTooLong { len: usize },
    /// A vault already exists for this track.
    VaultAlreadyInitialized,
    /// The named counter would overflow or underflow.
    ArithmeticOverflow { field: LedgerField },
}

impl MusicValueError {
    /// The family a rejection belongs to.
    pub open spec fn kind_of(self) -> ErrorKind {
        match self {
            MusicValueError::ZeroDeposit
            | MusicValueError::ZeroWithdraw
            | MusicValueError::TrackIdTooLong { .. }
            | MusicValueError::InvalidCap
            | MusicValueError::InvalidRoyaltyPct { .. }
            | MusicValueError::InvalidDistributionInterval { .. }
            | MusicValueError::PledgeNoteTooLong { .. } => ErrorKind::Validation,
            MusicValueError::VaultCapExceeded { .. }
            | MusicValueError::InsufficientShares { .. }
            | MusicValueError::NoShareholders
            | MusicValueError::VaultAlreadyInitialized => ErrorKind::BusinessRule,
            MusicValueError::Unauthorized => ErrorKind::Authorization,
            MusicValueError::ArithmeticOverflow { .. } => ErrorKind::ArithmeticSafety,
        }
    }

    /// The text shown to a user for a rejection.
    pub open spec fn message_of(self) -> Seq<char> {
        match self {
            MusicValueError::VaultCapExceeded { .. } => "Vault has reached its funding cap"@,
            MusicValueError::ZeroDeposit => "Deposit amount must be greater than zero"@,
            MusicValueError::InsufficientShares { .. } => "Insufficient shares to withdraw"@,
            MusicValueError::ZeroWithdraw => "Withdraw amount must be greater than zero"@,
            MusicValueError::TrackIdTooLong { .. } => {
                "Audius track ID is too long (max 32 characters)"@
            },
            MusicValueError::InvalidCap => "Vault cap must be greater than zero"@,
            MusicValueError::Unauthorized => "Only the vault authority can perform this action"@,
            MusicValueError::NoShareholders => {
                "Cannot distribute yield when there are no shareholders"@
            },
            MusicValueError::InvalidRoyaltyPct { .. } => {
                "Royalty percentage must be between 0 and 100"@
            },
            MusicValueError::InvalidDistributionInterval { .. } => {
                "Distribution interval must be 0 (monthly), 1 (quarterly), or 2 (milestone)"@
            },
            MusicValueError::PledgeNoteTooLong { .. } => {
                "Pledge note is too long (max 200 characters)"@
            },
            MusicValueError::VaultAlreadyInitialized => "A vault already exists for this track"@,
            MusicValueError::ArithmeticOverflow { .. } => {
                "Arithmetic overflow in vault accounting"@
            },
        }
    }

    /// The family this rejection belongs to.
    pub fn kind(&self) -> (k: ErrorKind)
        ensures
            k == self.kind_of(),
    {
        match self {
            MusicValueError::ZeroDeposit
            | MusicValueError::ZeroWithdraw
            | MusicValueError::TrackIdTooLong { .. }
            | MusicValueError::InvalidCap
            | MusicValueError::InvalidRoyaltyPct { .. }
            | MusicValueError::InvalidDistributionInterval { .. }
            | MusicValueError::PledgeNoteTooLong { .. } => ErrorKind::Validation,
            MusicValueError::VaultCapExceeded { .. }
            | MusicValueError::InsufficientShares { .. }
            | MusicValueError::NoShareholders
            | MusicValueError::VaultAlreadyInitialized => ErrorKind::BusinessRule,
            MusicValueError::Unauthorized => ErrorKind::Authorization,
            MusicValueError::ArithmeticOverflow { .. } => ErrorKind::ArithmeticSafety,
        }
    }

    /// The text shown to a user for this rejection.
    pub fn message(&self) -> (text: &'static str)
        ensures
            text@ == self.message_of(),
    {
        match self {
            MusicValueError::VaultCapExceeded { .. } => "Vault has reached its funding cap",
            MusicValueError::ZeroDeposit => "Deposit amount must be greater than zero",
            MusicValueError::InsufficientShares { .. } => "Insufficient shares to withdraw",
            MusicValueError::ZeroWithdraw => "Withdraw amount must be greater than zero",
            MusicValueError::TrackIdTooLong { .. } => {
                "Audius track ID is too long (max 32 characters)"
            },
            MusicValueError::InvalidCap => "Vault cap must be greater than zero",
            MusicValueError::Unauthorized => "Only the vault authority can perform this action",
            MusicValueError::NoShareholders => {
                "Cannot distribute yield when there are no shareholders"
            },
            MusicValueError::InvalidRoyaltyPct { .. } => {
                "Royalty percentage must be between 0 and 100"
            },
            MusicValueError::InvalidDistributionInterval { .. } => {
                "Distribution interval must be 0 (monthly), 1 (quarterly), or 2 (milestone)"
            },
            MusicValueError::PledgeNoteTooLong { .. } => {
                "Pledge note is too long (max 200 characters)"
            },
            MusicValueError::VaultAlreadyInitialized => "A vault already exists for this track",
            MusicValueError::ArithmeticOverflow { .. } => "Arithmetic overflow in vault accounting",
        }
    }
}

} // verus!
