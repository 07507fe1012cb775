use vstd::prelude::*;
use vstd::utf8::encode_utf8;
use crate::address::Address;
use crate::derivation::{escrow_seeds, find_escrow_address, program_address, MAX_SEED_LEN};
use crate::error::ErrorCode;
use crate::events::{PlayerRegistered, PrizeClaimed, TournamentFinalized};
use crate::tournament::{Tournament, MAX_ID_LEN};

verus! {

/// All tournaments of one program, each under its own identifier.
pub struct Arena {
    /// The program under which escrow addresses are derived.
    pub program_id: Address,
    pub tournaments: Vec<Tournament>,
}

/// The signer creating a tournament, who becomes its authority.
pub struct CreateTournament {
    pub authority: Address,
}

/// The signer joining a tournament, with the funds it controls.
pub struct RegisterForTournament {
    pub player: Address,
    pub player_lamports: u64,
}

/// The tournament to finalize and the signer asking for it.
pub struct FinalizeTournament {
    pub tournament_id: String,
    pub authority: Address,
}

/// The tournament to withdraw from and the signer receiving the prize, with
/// the funds it controls.
pub struct ClaimPrize {
    pub tournament_id: String,
    pub winner: Address,
    pub winner_lamports: u64,
}

/// Some tournament of `ts` is called `id`.
pub open spec fn has_id(ts: Seq<Tournament>, id: Seq<char>) -> bool {
    exists|i: int| 0 <= i < ts.len() && ts[i].tournament_id@ == id
}

/// Position of the tournament called `id`, if there is one.
pub open spec fn index_of(ts: Seq<Tournament>, id: Seq<char>) -> Option<int> {
    if has_id(ts, id) {
        Some(choose|i: int| 0 <= i < ts.len() && ts[i].tournament_id@ == id)
    } else {
        None
    }
}

/// Whether `id` is an acceptable identifier: 1 to `MAX_ID_LEN` bytes, and no
/// longer than `MAX_SEED_LEN`, the longest seed an escrow address can be
/// derived from (so in effect 1 to 32 bytes).
pub open spec fn valid_id(id: Seq<char>) -> bool {
    1 <= encode_utf8(id).len() <= MAX_ID_LEN && encode_utf8(id).len() <= MAX_SEED_LEN
}

/// `new` holds the same program and the same tournaments as `old`.
pub open spec fn unchanged(old: Arena, new: Arena) -> bool {
    new.program_id == old.program_id && new.tournaments@ == old.tournaments@
}

/// `new` holds the tournaments of `old`, the one at `i` replaced by `t`.
pub open spec fn replaced(old: Arena, new: Arena, i: int, t: Tournament) -> bool {
    &&& new.program_id == old.program_id
    &&& new.tournaments@ == old.tournaments@.update(i, t)
}

impl Arena {
    /// Every record is well formed and no two share an identifier.
    pub open spec fn wf(&self) -> bool {
        &&& forall|i: int| 0 <= i < self.tournaments@.len() ==> (#[trigger] self.tournaments@[i]).wf()
        &&& forall|i: int, j: int|
            0 <= i < j < self.tournaments@.len() ==> self.tournaments@[i].tournament_id@
                != self.tournaments@[j].tournament_id@
    }

    /// An arena with no tournaments, deriving escrow addresses under `program_id`.
    pub fn new(program_id: Address) -> (r: Arena)
        ensures
            r.wf(),
            r.program_id == program_id,
            r.tournaments@.len() == 0,
    {
        Arena { program_id, tournaments: Vec::new() }
    }

    /// Finds the tournament called `id`.
    pub fn find(&self, id: &String) -> (r: Option<usize>)
        requires
            self.wf(),
        ensures
            r matches Some(i) ==> index_of(self.tournaments@, id@) == Some(i as int),
            r is None ==> index_of(self.tournaments@, id@) is None,
    {
        let mut i: usize = 0;
        while i < self.tournaments.len()
            invariant
                self.wf(),
                0 <= i <= self.tournaments@.len(),
                forall|j: int| 0 <= j < i ==> self.tournaments@[j].tournament_id@ != id@,
            decreases self.tournaments@.len() - i,
        {
            if self.tournaments[i].tournament_id == *id {
                let ghost k = choose|k: int|
                    0 <= k < self.tournaments@.len() && self.tournaments@[k].tournament_id@ == id@;
                assert(k == i as int);
                return Some(i);
            }
            i = i + 1;
        }
        None
    }

    /// Adds the tournament `tournament_id`, whose escrow holder was derived as
    /// `escrow`, unless the identifier is malformed or taken.
    pub fn create_with_escrow(
        &mut self,
        authority: Address,
        tournament_id: String,
        entry_fee: u64,
        escrow: Option<(Address, u8)>,
    ) -> (r: Result<(), ErrorCode>)
        requires
            old(self).wf(),
        ensures
            final(self).wf(),
            !valid_id(tournament_id@) ==> r == Err::<(), ErrorCode>(ErrorCode::InvalidInput),
            valid_id(tournament_id@) && has_id(old(self).tournaments@, tournament_id@) ==> r
                == Err::<(), ErrorCode>(ErrorCode::TournamentAlreadyExists),
            valid_id(tournament_id@) && !has_id(old(self).tournaments@, tournament_id@)
                && escrow is None ==> r == Err::<(), ErrorCode>(ErrorCode::InvalidInput),
            r is Err ==> *final(self) == *old(self),
            r is Ok <==> valid_id(tournament_id@) && !has_id(old(self).tournaments@, tournament_id@)
                && escrow is Some,
            r is Ok ==> {
                let t = final(self).tournaments@.last();
                &&& final(self).program_id == old(self).program_id
                &&& final(self).tournaments@ == old(self).tournaments@.push(t)
                &&& t.authority == authority
                &&& t.tournament_id@ == tournament_id@
                &&& t.entry_fee == entry_fee
                &&& t.total_pool == 0
                &&& t.participants@.len() == 0
                &&& !t.is_finalized
                &&& (t.escrow, t.bump) == escrow->0
                &&& t.escrow_lamports == 0
                &&& t.awards@.len() == 0
            },
    {
        let len = tournament_id.as_str().as_bytes().len();
        if len == 0 || len > MAX_ID_LEN || len > MAX_SEED_LEN {
            return Err(ErrorCode::InvalidInput);
        }
        if self.find(&tournament_id).is_some() {
            return Err(ErrorCode::TournamentAlreadyExists);
        }
        let (address, bump) = match escrow {
            Some(found) => found,
            None => {
                return Err(ErrorCode::InvalidInput);
            },
        };
        let t = Tournament::new(authority, tournament_id, entry_fee, address, bump);
        self.tournaments.push(t);
        Ok(())
    }
}

/// Creates the tournament `tournament_id` with `ctx.authority` as its authority,
/// an empty pool, and an escrow holder derived from the identifier. An
/// identifier that is empty, or longer than an escrow seed may be (32 bytes),
/// is refused before any derivation is attempted.
pub fn create_tournament(arena: &mut Arena, ctx: &CreateTournament, tournament_id: String, entry_fee: u64) -> (r:
    Result<(), ErrorCode>)
    requires
        old(arena).wf(),
    ensures
        final(arena).wf(),
        ({
            let escrow = program_address(escrow_seeds(encode_utf8(tournament_id@)), old(arena).program_id@);
            &&& !valid_id(tournament_id@) ==> r == Err::<(), ErrorCode>(ErrorCode::InvalidInput)
            &&& valid_id(tournament_id@) && has_id(old(arena).tournaments@, tournament_id@) ==> r
                == Err::<(), ErrorCode>(ErrorCode::TournamentAlreadyExists)
            &&& valid_id(tournament_id@) && !has_id(old(arena).tournaments@, tournament_id@)
                && escrow is None ==> r == Err::<(), ErrorCode>(ErrorCode::InvalidInput)
            &&& r is Err ==> *final(arena) == *old(arena)
            &&& r is Ok <==> valid_id(tournament_id@) && !has_id(old(arena).tournaments@, tournament_id@)
                && escrow is Some
            &&& r is Ok ==> {
                let t = final(arena).tournaments@.last();
                &&& final(arena).program_id == old(arena).program_id
                &&& final(arena).tournaments@ == old(arena).tournaments@.push(t)
                &&& t.authority == ctx.authority
                &&& t.tournament_id@ == tournament_id@
                &&& t.entry_fee == entry_fee
                &&& t.total_pool == 0
                &&& t.participants@.len() == 0
                &&& !t.is_finalized
                &&& Some((t.escrow@, t.bump)) == escrow
                &&& t.escrow_lamports == 0
                &&& t.awards@.len() == 0
            }
        }),
{
    let len = tournament_id.as_str().as_bytes().len();
    if len == 0 || len > MAX_ID_LEN || len > MAX_SEED_LEN {
        return Err(ErrorCode::InvalidInput);
    }
    let escrow = find_escrow_address(tournament_id.as_str(), &arena.program_id);
    arena.create_with_escrow(ctx.authority, tournament_id, entry_fee, escrow)
}

/// Registers `ctx.player` in the tournament `tournament_id`, moving the entry
/// fee from `ctx.player_lamports` into escrow.
pub fn register_for_tournament(arena: &mut Arena, ctx: &mut RegisterForTournament, tournament_id: String) -> (r:
    Result<PlayerRegistered, ErrorCode>)
    requires
        old(arena).wf(),
    ensures
        final(arena).wf(),
        final(ctx).player == old(ctx).player,
        match index_of(old(arena).tournaments@, tournament_id@) {
            None => {
                &&& r == Err::<PlayerRegistered, ErrorCode>(ErrorCode::TournamentNotFound)
                &&& unchanged(*old(arena), *final(arena))
                &&& final(ctx).player_lamports == old(ctx).player_lamports
            },
            Some(i) => {
                let t = old(arena).tournaments@[i];
                match t.register_error(old(ctx).player, old(ctx).player_lamports) {
                    Some(e) => {
                        &&& r == Err::<PlayerRegistered, ErrorCode>(e)
                        &&& unchanged(*old(arena), *final(arena))
                        &&& final(ctx).player_lamports == old(ctx).player_lamports
                    },
                    None => {
                        &&& replaced(*old(arena), *final(arena), i, final(arena).tournaments@[i])
                        &&& t.registered(final(arena).tournaments@[i], old(ctx).player)
                        &&& final(ctx).player_lamports == old(ctx).player_lamports - t.entry_fee
                        &&& r matches Ok(ev) && ev.tournament_id@ == tournament_id@
                            && ev.player == old(ctx).player && ev.entry_fee == t.entry_fee
                            && ev.total_pool == t.total_pool + t.entry_fee
                    },
                }
            },
        },
{
    match arena.find(&tournament_id) {
        None => Err(ErrorCode::TournamentNotFound),
        Some(i) => {
            let player = ctx.player;
            let ghost before = arena.tournaments@;
            let r = arena.tournaments[i].register(player, &mut ctx.player_lamports);
            proof {
                assert(arena.tournaments@ =~= before.update(i as int, arena.tournaments@[i as int]));
                if r is Err {
                    assert(arena.tournaments@ =~= before);
                }
            }
            r
        },
    }
}

/// Finalizes the tournament `ctx.tournament_id` with the given placements, when
/// `ctx.authority` is its authority.
pub fn finalize_tournament(
    arena: &mut Arena,
    ctx: &FinalizeTournament,
    first_place: Address,
    second_place: Address,
    third_place: Address,
) -> (r: Result<TournamentFinalized, ErrorCode>)
    requires
        old(arena).wf(),
    ensures
        final(arena).wf(),
        match index_of(old(arena).tournaments@, ctx.tournament_id@) {
            None => {
                &&& r == Err::<TournamentFinalized, ErrorCode>(ErrorCode::TournamentNotFound)
                &&& unchanged(*old(arena), *final(arena))
            },
            Some(i) => {
                let t = old(arena).tournaments@[i];
                match t.finalize_error(ctx.authority) {
                    Some(e) => r == Err::<TournamentFinalized, ErrorCode>(e) && unchanged(*old(arena), *final(arena)),
                    None => {
                        &&& replaced(*old(arena), *final(arena), i, final(arena).tournaments@[i])
                        &&& t.finalized(final(arena).tournaments@[i], first_place, second_place, third_place)
                        &&& r matches Ok(ev) && ev.tournament_id@ == ctx.tournament_id@
                            && ev.first_place == first_place && ev.second_place == second_place
                            && ev.third_place == third_place
                            && ev.first_payout == final(arena).tournaments@[i].awards@[0].amount
                            && ev.second_payout == final(arena).tournaments@[i].awards@[1].amount
                            && ev.third_payout == final(arena).tournaments@[i].awards@[2].amount
                    },
                }
            },
        },
{
    match arena.find(&ctx.tournament_id) {
        None => Err(ErrorCode::TournamentNotFound),
        Some(i) => {
            let ghost before = arena.tournaments@;
            let r = arena.tournaments[i].finalize(ctx.authority, first_place, second_place, third_place);
            proof {
                assert(arena.tournaments@ =~= before.update(i as int, arena.tournaments@[i as int]));
                if r is Err {
                    assert(arena.tournaments@ =~= before);
                }
            }
            r
        },
    }
}

/// Pays `payout_amount` from the escrow of `ctx.tournament_id` to `ctx.winner`,
/// consuming the first unclaimed award of that amount to that winner.
pub fn claim_prize(arena: &mut Arena, ctx: &mut ClaimPrize, payout_amount: u64) -> (r: Result<
    PrizeClaimed,
    ErrorCode,
>)
    requires
        old(arena).wf(),
    ensures
        final(arena).wf(),
        final(ctx).tournament_id == old(ctx).tournament_id,
        final(ctx).winner == old(ctx).winner,
        match index_of(old(arena).tournaments@, old(ctx).tournament_id@) {
            None => {
                &&& r == Err::<PrizeClaimed, ErrorCode>(ErrorCode::TournamentNotFound)
                &&& unchanged(*old(arena), *final(arena))
                &&& final(ctx).winner_lamports == old(ctx).winner_lamports
            },
            Some(i) => {
                let t = old(arena).tournaments@[i];
                match t.claim_error(old(ctx).winner, payout_amount, old(ctx).winner_lamports) {
                    Some(e) => {
                        &&& r == Err::<PrizeClaimed, ErrorCode>(e)
                        &&& unchanged(*old(arena), *final(arena))
                        &&& final(ctx).winner_lamports == old(ctx).winner_lamports
                    },
                    None => {
                        &&& replaced(*old(arena), *final(arena), i, final(arena).tournaments@[i])
                        &&& t.claimed(final(arena).tournaments@[i], t.claim_slot(old(ctx).winner, payout_amount)->0)
                        &&& final(ctx).winner_lamports == old(ctx).winner_lamports + payout_amount
                        &&& r matches Ok(ev) && ev.tournament_id@ == old(ctx).tournament_id@
                            && ev.winner == old(ctx).winner && ev.amount == payout_amount
                    },
                }
            },
        },
{
    match arena.find(&ctx.tournament_id) {
        None => Err(ErrorCode::TournamentNotFound),
        Some(i) => {
            let winner = ctx.winner;
            let ghost before = arena.tournaments@;
            let r = arena.tournaments[i].claim(winner, payout_amount, &mut ctx.winner_lamports);
            proof {
                assert(arena.tournaments@ =~= before.update(i as int, arena.tournaments@[i as int]));
                if r is Err {
                    assert(arena.tournaments@ =~= before);
                }
            }
            r
        },
    }
}

} // verus!
