use vstd::prelude::*;

verus! {

/// Every way an operation on a tournament can be rejected. A rejected
/// operation leaves all state as it was.
#[derive(Clone, Copy, Debug, PartialEq, Eq, Structural)]
pub enum ErrorCode {
    /// Registration or finalization attempted after finalization.
    TournamentFinalized,
    /// The player is already a participant.
    AlreadyRegistered,
    /// The caller is not the tournament's authority.
    Unauthorized,
    /// A prize claim before finalization.
    TournamentNotFinalized,
    /// The participant list is full.
    CapacityExceeded,
    /// The player cannot cover the entry fee.
    InsufficientFunds,
    /// The escrow holder cannot cover the claimed amount.
    InsufficientEscrowBalance,
    /// The tournament identifier is empty, too long, or yields no escrow address.
    InvalidInput,
    /// A tournament with this identifier already exists.
    TournamentAlreadyExists,
    /// No tournament has this identifier.
    TournamentNotFound,
    /// No unclaimed prize of this amount was awarded to the claimant.
    PrizeNotAwarded,
    /// A balance would exceed the range of a 64-bit amount.
    ArithmeticOverflow,
}

} // verus!
