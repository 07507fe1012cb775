use vstd::prelude::*;
use crate::address::Address;
use crate::error::ErrorCode;
use crate::payout::lemma_payouts_within_pool;
use crate::tournament::{claimed_total, distinct_addresses, is_participant, Tournament, MAX_PARTICIPANTS};

verus! {

/// After any successful registration the record stays well formed, so the pool
/// is still exactly one entry fee per participant.
pub proof fn law_pool_is_fee_per_participant(t: Tournament, new: Tournament, player: Address, lamports: u64)
    requires
        t.wf(),
        t.register_error(player, lamports) is None,
        t.registered(new, player),
    ensures
        new.wf(),
        new.total_pool == new.entry_fee * new.participants@.len(),
{
    let len = t.participants@.len();
    assert(t.entry_fee * (len + 1) == t.entry_fee * len + t.entry_fee) by (nonlinear_arith);
    assert forall|i: int, j: int| 0 <= i < j < new.participants@.len() implies
        new.participants@[i]@ != new.participants@[j]@ by {
        if j == len {
            assert(new.participants@[i] == t.participants@[i]);
        }
    }
}

/// A player who has just registered cannot register again: the attempt is
/// refused as a repeat, whatever funds the player then holds.
pub proof fn law_second_registration_fails(
    t: Tournament,
    new: Tournament,
    player: Address,
    lamports: u64,
    later_lamports: u64,
)
    requires
        t.wf(),
        t.register_error(player, lamports) is None,
        t.registered(new, player),
    ensures
        new.register_error(player, later_lamports) == Some(ErrorCode::AlreadyRegistered),
{
    assert(new.participants@[t.participants@.len() as int] == player);
    assert(is_participant(new.participants@, player));
}

/// Once finalized, a tournament refuses any further finalization, by anyone.
pub proof fn law_finalize_only_once(
    t: Tournament,
    new: Tournament,
    caller: Address,
    first: Address,
    second: Address,
    third: Address,
    later_caller: Address,
)
    requires
        t.wf(),
        t.finalize_error(caller) is None,
        t.finalized(new, first, second, third),
    ensures
        new.finalize_error(later_caller) == Some(ErrorCode::TournamentFinalized),
{
}

/// Withdrawing a prize changes no declared payout: every award keeps its winner
/// and amount, and only the withdrawn one becomes claimed.
pub proof fn law_claims_keep_payouts(t: Tournament, new: Tournament, slot: int)
    requires
        t.wf(),
        t.is_finalized,
        0 <= slot < 3,
        t.claimed(new, slot),
    ensures
        new.awards@.len() == t.awards@.len(),
        forall|k: int|
            0 <= k < 3 ==> new.awards@[k].winner == t.awards@[k].winner && new.awards@[k].amount
                == t.awards@[k].amount,
        forall|k: int| 0 <= k < 3 && k != slot ==> new.awards@[k].claimed == t.awards@[k].claimed,
        new.awards@[slot].claimed,
{
}

/// Once finalized, a tournament refuses every registration.
pub proof fn law_no_registration_after_finalize(
    t: Tournament,
    new: Tournament,
    caller: Address,
    first: Address,
    second: Address,
    third: Address,
    player: Address,
    lamports: u64,
)
    requires
        t.wf(),
        t.finalize_error(caller) is None,
        t.finalized(new, first, second, third),
    ensures
        new.register_error(player, lamports) == Some(ErrorCode::TournamentFinalized),
{
}

/// Before finalization every prize claim is refused as premature.
pub proof fn law_no_claim_before_finalize(t: Tournament, winner: Address, amount: u64, lamports: u64)
    requires
        t.wf(),
        !t.is_finalized,
    ensures
        t.claim_error(winner, amount, lamports) == Some(ErrorCode::TournamentNotFinalized),
{
}

/// A new player cannot join a tournament that already has the most participants allowed.
pub proof fn law_capacity_is_enforced(t: Tournament, player: Address, lamports: u64)
    requires
        t.wf(),
        !t.is_finalized,
        !is_participant(t.participants@, player),
        t.participants@.len() == MAX_PARTICIPANTS,
    ensures
        t.register_error(player, lamports) == Some(ErrorCode::CapacityExceeded),
{
}

/// Escrow holds the pool less what has been withdrawn, and always covers any
/// award still to be claimed.
pub proof fn law_escrow_covers_unclaimed(t: Tournament, winner: Address, amount: u64)
    requires
        t.wf(),
        t.claim_slot(winner, amount) is Some,
    ensures
        t.escrow_lamports == t.total_pool - claimed_total(t.awards@),
        t.escrow_lamports >= amount,
{
    lemma_payouts_within_pool(t.total_pool as int);
}

/// What the first `k` steps of a run of registrations leave: every step was
/// accepted, and the record holds the first `k` players and `k` entry fees.
proof fn lemma_registration_run_prefix(
    records: Seq<Tournament>,
    players: Seq<Address>,
    lamports: Seq<u64>,
    k: int,
)
    requires
        players.len() <= MAX_PARTICIPANTS,
        lamports.len() == players.len(),
        records.len() == players.len() + 1,
        distinct_addresses(players),
        records[0].wf(),
        !records[0].is_finalized,
        records[0].participants@.len() == 0,
        records[0].entry_fee * players.len() <= u64::MAX,
        forall|j: int| 0 <= j < players.len() ==> lamports[j] >= records[0].entry_fee,
        forall|j: int|
            0 <= j < players.len() ==> (#[trigger] records[j]).register_step(records[j + 1], players[j], lamports[j]),
        0 <= k <= players.len(),
    ensures
        records[k].wf(),
        !records[k].is_finalized,
        records[k].entry_fee == records[0].entry_fee,
        records[k].participants@ == players.subrange(0, k),
        records[k].total_pool == records[0].entry_fee * k,
        forall|j: int| 0 <= j < k ==> (#[trigger] records[j]).register_error(players[j], lamports[j]) is None,
    decreases k,
{
    let fee = records[0].entry_fee;
    if k == 0 {
        assert(records[0].participants@ =~= players.subrange(0, 0));
    } else {
        lemma_registration_run_prefix(records, players, lamports, k - 1);
        let t = records[k - 1];
        let p = players[k - 1];
        let n = players.len();
        if is_participant(t.participants@, p) {
            let i = choose|i: int| 0 <= i < t.participants@.len() && t.participants@[i]@ == p@;
            assert(players[i] == t.participants@[i]);
        }
        assert(fee * (k - 1) + fee == fee * k) by (nonlinear_arith);
        assert(fee * k <= fee * n) by (nonlinear_arith)
            requires k <= n, fee >= 0;
        assert(t.register_step(records[k], p, lamports[k - 1]));
        assert(t.register_error(p, lamports[k - 1]) is None);
        law_pool_is_fee_per_participant(t, records[k], p, lamports[k - 1]);
        assert(records[k].participants@ =~= players.subrange(0, k));
    }
}

/// A fresh tournament accepts distinct players, each able to pay the fee, one
/// after another up to `MAX_PARTICIPANTS` of them, as long as the pool fits in
/// a `u64`: every registration succeeds, and the record ends with exactly those
/// players, in order, and one entry fee from each.
pub proof fn law_registrations_up_to_capacity_succeed(
    records: Seq<Tournament>,
    players: Seq<Address>,
    lamports: Seq<u64>,
)
    requires
        players.len() <= MAX_PARTICIPANTS,
        lamports.len() == players.len(),
        records.len() == players.len() + 1,
        distinct_addresses(players),
        records[0].wf(),
        !records[0].is_finalized,
        records[0].participants@.len() == 0,
        records[0].entry_fee * players.len() <= u64::MAX,
        forall|j: int| 0 <= j < players.len() ==> lamports[j] >= records[0].entry_fee,
        forall|j: int|
            0 <= j < players.len() ==> (#[trigger] records[j]).register_step(records[j + 1], players[j], lamports[j]),
    ensures
        forall|j: int| 0 <= j < players.len() ==> (#[trigger] records[j]).register_error(players[j], lamports[j]) is None,
        records.last().participants@ == players,
        records.last().total_pool == records[0].entry_fee * players.len(),
{
    lemma_registration_run_prefix(records, players, lamports, players.len() as int);
    assert(players.subrange(0, players.len() as int) =~= players);
}

} // verus!
