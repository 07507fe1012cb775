//! Escrow state machine for paid-entry tournaments: creation, registration,
//! finalization with ranked winners, and prize withdrawal.

pub mod address;
pub mod arena;
pub mod derivation;
pub mod error;
pub mod events;
pub mod laws;
pub mod payout;
pub mod tournament;

pub use arena::{
    claim_prize, create_tournament, finalize_tournament, register_for_tournament, Arena, ClaimPrize,
    CreateTournament, FinalizeTournament, RegisterForTournament,
};
pub use error::ErrorCode;
pub use events::{PlayerRegistered, PrizeClaimed, TournamentFinalized};
pub use tournament::Tournament;
