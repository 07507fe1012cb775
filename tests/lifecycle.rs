use anchor_lang::solana_program::pubkey::Pubkey;
use sol_arena::address::Address;
use sol_arena::arena::{
    claim_prize, create_tournament, finalize_tournament, register_for_tournament, Arena, ClaimPrize,
    CreateTournament, FinalizeTournament, RegisterForTournament,
};
use sol_arena::error::ErrorCode;
use sol_arena::payout::compute_payouts;

fn addr(n: u8) -> Address {
    let mut bytes = [0u8; 32];
    bytes[0] = n;
    bytes[31] = 7;
    Address::new(bytes)
}

fn program() -> Address {
    Address::new([9u8; 32])
}

fn arena_with(id: &str, authority: Address, fee: u64) -> Arena {
    let mut arena = Arena::new(program());
    let r = create_tournament(&mut arena, &CreateTournament { authority }, id.to_string(), fee);
    assert_eq!(r, Ok(()));
    arena
}

fn register(arena: &mut Arena, id: &str, player: Address, lamports: u64) -> (Result<u64, ErrorCode>, u64) {
    let mut ctx = RegisterForTournament { player, player_lamports: lamports };
    let r = register_for_tournament(arena, &mut ctx, id.to_string()).map(|ev| ev.total_pool);
    (r, ctx.player_lamports)
}

fn finalize(arena: &mut Arena, id: &str, caller: Address, p: [Address; 3]) -> Result<(u64, u64, u64), ErrorCode> {
    let ctx = FinalizeTournament { tournament_id: id.to_string(), authority: caller };
    finalize_tournament(arena, &ctx, p[0], p[1], p[2])
        .map(|ev| (ev.first_payout, ev.second_payout, ev.third_payout))
}

fn claim(arena: &mut Arena, id: &str, winner: Address, lamports: u64, amount: u64) -> (Result<u64, ErrorCode>, u64) {
    let mut ctx = ClaimPrize { tournament_id: id.to_string(), winner, winner_lamports: lamports };
    let r = claim_prize(arena, &mut ctx, amount).map(|ev| ev.amount);
    (r, ctx.winner_lamports)
}

#[test]
fn pool_tracks_each_registration() {
    let mut arena = arena_with("cup", addr(1), 25);
    for n in 0..10u8 {
        let (r, left) = register(&mut arena, "cup", addr(100 + n), 30);
        assert_eq!(r, Ok(25 * (n as u64 + 1)));
        assert_eq!(left, 5);
        let t = &arena.tournaments[0];
        assert_eq!(t.total_pool, t.entry_fee * t.participants.len() as u64);
        assert_eq!(t.escrow_lamports, t.total_pool);
    }
}

#[test]
fn second_registration_is_refused() {
    let mut arena = arena_with("cup", addr(1), 10);
    assert_eq!(register(&mut arena, "cup", addr(2), 50).0, Ok(10));
    let (r, left) = register(&mut arena, "cup", addr(2), 50);
    assert_eq!(r, Err(ErrorCode::AlreadyRegistered));
    assert_eq!(left, 50);
    assert_eq!(arena.tournaments[0].total_pool, 10);
    assert_eq!(arena.tournaments[0].participants.len(), 1);
}

#[test]
fn finalize_twice_is_refused() {
    let mut arena = arena_with("cup", addr(1), 10);
    register(&mut arena, "cup", addr(2), 10);
    assert_eq!(finalize(&mut arena, "cup", addr(1), [addr(2), addr(3), addr(4)]), Ok((6, 3, 1)));
    assert_eq!(
        finalize(&mut arena, "cup", addr(1), [addr(4), addr(3), addr(2)]),
        Err(ErrorCode::TournamentFinalized)
    );
    let awards = &arena.tournaments[0].awards;
    assert_eq!(awards.len(), 3);
    assert!(awards[0].winner == addr(2));
    assert_eq!((awards[0].amount, awards[1].amount, awards[2].amount), (6, 3, 1));
}

#[test]
fn payouts_of_round_pool() {
    assert_eq!(compute_payouts(100), (60, 30, 10));
    let (a, b, c) = compute_payouts(100);
    assert_eq!(a + b + c, 100);
}

#[test]
fn payouts_truncate_each_share() {
    assert_eq!(compute_payouts(7), (4, 2, 0));
    let (a, b, c) = compute_payouts(7);
    assert_eq!(a + b + c, 6);
}

#[test]
fn payouts_of_largest_pool() {
    let m = u64::MAX as u128;
    let expected = ((m * 60 / 100) as u64, (m * 30 / 100) as u64, (m * 10 / 100) as u64);
    assert_eq!(compute_payouts(u64::MAX), expected);
    assert_eq!(compute_payouts(0), (0, 0, 0));
}

#[test]
fn truncation_remainder_stays_in_escrow() {
    let mut arena = arena_with("odd", addr(1), 7);
    register(&mut arena, "odd", addr(2), 7);
    assert_eq!(finalize(&mut arena, "odd", addr(1), [addr(2), addr(3), addr(4)]), Ok((4, 2, 0)));
    assert_eq!(claim(&mut arena, "odd", addr(2), 0, 4), (Ok(4), 4));
    assert_eq!(claim(&mut arena, "odd", addr(3), 0, 2), (Ok(2), 2));
    assert_eq!(arena.tournaments[0].escrow_lamports, 1);
}

#[test]
fn register_before_create_fails() {
    let mut arena = Arena::new(program());
    assert_eq!(register(&mut arena, "cup", addr(2), 50), (Err(ErrorCode::TournamentNotFound), 50));
}

#[test]
fn claim_before_finalize_fails() {
    let mut arena = arena_with("cup", addr(1), 10);
    register(&mut arena, "cup", addr(2), 10);
    assert_eq!(claim(&mut arena, "cup", addr(2), 0, 6), (Err(ErrorCode::TournamentNotFinalized), 0));
    assert_eq!(arena.tournaments[0].escrow_lamports, 10);
}

#[test]
fn register_after_finalize_fails() {
    let mut arena = arena_with("cup", addr(1), 10);
    finalize(&mut arena, "cup", addr(1), [addr(2), addr(3), addr(4)]).unwrap();
    assert_eq!(register(&mut arena, "cup", addr(5), 50), (Err(ErrorCode::TournamentFinalized), 50));
}

#[test]
fn two_player_scenario() {
    let a = addr(10);
    let b = addr(11);
    let mut arena = arena_with("T1", addr(1), 10);
    assert_eq!(register(&mut arena, "T1", a, 100), (Ok(10), 90));
    assert_eq!(register(&mut arena, "T1", b, 100), (Ok(20), 90));
    assert_eq!(arena.tournaments[0].total_pool, 20);
    assert_eq!(finalize(&mut arena, "T1", addr(1), [a, b, a]), Ok((12, 6, 2)));
    let escrow_before = arena.tournaments[0].escrow_lamports;
    assert_eq!(claim(&mut arena, "T1", a, 90, 12), (Ok(12), 102));
    assert_eq!(arena.tournaments[0].escrow_lamports, escrow_before - 12);
    assert_eq!(claim(&mut arena, "T1", a, 102, 12), (Err(ErrorCode::InsufficientEscrowBalance), 102));
    assert_eq!(claim(&mut arena, "T1", a, 102, 6), (Err(ErrorCode::PrizeNotAwarded), 102));
    assert_eq!(claim(&mut arena, "T1", a, 102, 2), (Ok(2), 104));
    assert_eq!(claim(&mut arena, "T1", b, 90, 6), (Ok(6), 96));
    assert_eq!(arena.tournaments[0].escrow_lamports, 0);
}

#[test]
fn capacity_is_sixty_four() {
    let mut arena = arena_with("big", addr(1), 3);
    for n in 0..64u8 {
        assert_eq!(register(&mut arena, "big", addr(n + 20), 3).0, Ok(3 * (n as u64 + 1)));
    }
    assert_eq!(register(&mut arena, "big", addr(200), 3), (Err(ErrorCode::CapacityExceeded), 3));
    assert_eq!(arena.tournaments[0].participants.len(), 64);
    assert_eq!(arena.tournaments[0].total_pool, 192);
}

#[test]
fn unauthorized_finalize_fails() {
    let mut arena = arena_with("cup", addr(1), 10);
    assert_eq!(
        finalize(&mut arena, "cup", addr(2), [addr(2), addr(3), addr(4)]),
        Err(ErrorCode::Unauthorized)
    );
    assert!(!arena.tournaments[0].is_finalized);
}

#[test]
fn insufficient_funds_leave_state_unchanged() {
    let mut arena = arena_with("cup", addr(1), 10);
    assert_eq!(register(&mut arena, "cup", addr(2), 9), (Err(ErrorCode::InsufficientFunds), 9));
    assert_eq!(arena.tournaments[0].participants.len(), 0);
    assert_eq!(arena.tournaments[0].total_pool, 0);
}

#[test]
fn pool_overflow_is_refused() {
    let mut arena = arena_with("max", addr(1), u64::MAX);
    assert_eq!(register(&mut arena, "max", addr(2), u64::MAX), (Ok(u64::MAX), 0));
    assert_eq!(register(&mut arena, "max", addr(3), u64::MAX), (Err(ErrorCode::ArithmeticOverflow), u64::MAX));
}

#[test]
fn claim_overflow_is_refused() {
    let mut arena = arena_with("cup", addr(1), 10);
    register(&mut arena, "cup", addr(2), 10);
    finalize(&mut arena, "cup", addr(1), [addr(2), addr(3), addr(4)]).unwrap();
    assert_eq!(claim(&mut arena, "cup", addr(2), u64::MAX, 6), (Err(ErrorCode::ArithmeticOverflow), u64::MAX));
    assert_eq!(arena.tournaments[0].escrow_lamports, 10);
}

#[test]
fn claim_by_stranger_fails() {
    let mut arena = arena_with("cup", addr(1), 10);
    register(&mut arena, "cup", addr(2), 10);
    finalize(&mut arena, "cup", addr(1), [addr(2), addr(3), addr(4)]).unwrap();
    assert_eq!(claim(&mut arena, "cup", addr(9), 0, 6), (Err(ErrorCode::PrizeNotAwarded), 0));
    assert_eq!(claim(&mut arena, "cup", addr(2), 0, 7), (Err(ErrorCode::PrizeNotAwarded), 0));
}

#[test]
fn duplicate_identifier_is_refused() {
    let mut arena = arena_with("cup", addr(1), 10);
    let r = create_tournament(&mut arena, &CreateTournament { authority: addr(2) }, "cup".to_string(), 5);
    assert_eq!(r, Err(ErrorCode::TournamentAlreadyExists));
    assert_eq!(arena.tournaments.len(), 1);
    assert_eq!(arena.tournaments[0].entry_fee, 10);
}

#[test]
fn malformed_identifiers_are_refused() {
    let mut arena = Arena::new(program());
    let ctx = CreateTournament { authority: addr(1) };
    assert_eq!(create_tournament(&mut arena, &ctx, String::new(), 5), Err(ErrorCode::InvalidInput));
    assert_eq!(create_tournament(&mut arena, &ctx, "x".repeat(51), 5), Err(ErrorCode::InvalidInput));
    // Longer than one derivation seed: refused before any derivation.
    assert_eq!(create_tournament(&mut arena, &ctx, "x".repeat(33), 5), Err(ErrorCode::InvalidInput));
    assert_eq!(arena.tournaments.len(), 0);
    assert_eq!(create_tournament(&mut arena, &ctx, "x".repeat(32), 5), Ok(()));
}

#[test]
fn escrow_address_is_derived_from_identifier() {
    let arena = arena_with("T1", addr(1), 10);
    let t = &arena.tournaments[0];
    let (key, bump) =
        Pubkey::find_program_address(&[b"escrow", b"T1"], &Pubkey::new_from_array(program().bytes));
    assert_eq!(t.escrow.bytes, key.to_bytes());
    assert_eq!(t.bump, bump);
    assert!(t.escrow != program());
    assert!(t.authority == addr(1));
    assert_eq!(t.tournament_id, "T1");
}

#[test]
fn well_formedness_check_spots_broken_records() {
    let mut arena = arena_with("cup", addr(1), 10);
    register(&mut arena, "cup", addr(2), 10);
    register(&mut arena, "cup", addr(3), 10);
    assert!(arena.tournaments[0].is_well_formed());
    let mut pool_off = arena.tournaments[0].clone();
    pool_off.total_pool = 25;
    assert!(!pool_off.is_well_formed());
    let mut repeated = arena.tournaments[0].clone();
    repeated.participants[1] = addr(2);
    assert!(!repeated.is_well_formed());
    let mut escrow_off = arena.tournaments[0].clone();
    escrow_off.escrow_lamports = 19;
    assert!(!escrow_off.is_well_formed());
    finalize(&mut arena, "cup", addr(1), [addr(2), addr(3), addr(4)]).unwrap();
    claim(&mut arena, "cup", addr(2), 0, 12);
    assert!(arena.tournaments[0].is_well_formed());
}

#[test]
fn claim_beyond_escrow_is_refused() {
    let mut arena = arena_with("cup", addr(1), 10);
    register(&mut arena, "cup", addr(2), 10);
    finalize(&mut arena, "cup", addr(1), [addr(2), addr(3), addr(4)]).unwrap();
    assert_eq!(claim(&mut arena, "cup", addr(2), 0, 11), (Err(ErrorCode::InsufficientEscrowBalance), 0));
    assert_eq!(claim(&mut arena, "cup", addr(9), 5, 11), (Err(ErrorCode::InsufficientEscrowBalance), 5));
    assert_eq!(arena.tournaments[0].escrow_lamports, 10);
    assert_eq!(claim(&mut arena, "cup", addr(2), 0, 6), (Ok(6), 6));
    assert_eq!(claim(&mut arena, "cup", addr(3), 0, 6), (Err(ErrorCode::InsufficientEscrowBalance), 0));
}
