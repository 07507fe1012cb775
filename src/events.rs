use vstd::prelude::*;
use crate::address::Address;

verus! {

/// Published when a player joins a tournament.
#[derive(Clone, Debug)]
pub struct PlayerRegistered {
    pub tournament_id: String,
    pub player: Address,
    pub entry_fee: u64,
    pub total_pool: u64,
}

/// Published when the authority declares the placements.
#[derive(Clone, Debug)]
pub struct TournamentFinalized {
    pub tournament_id: String,
    pub first_place: Address,
    pub second_place: Address,
    pub third_place: Address,
    pub first_payout: u64,
    pub second_payout: u64,
    pub third_payout: u64,
}

/// Published when a winner withdraws a prize from escrow.
#[derive(Clone, Debug)]
pub struct PrizeClaimed {
    pub tournament_id: String,
    pub winner: Address,
    pub amount: u64,
}

} // verus!
