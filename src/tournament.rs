use vstd::prelude::*;
use crate::address::Address;
use crate::error::ErrorCode;
use crate::events::{PlayerRegistered, PrizeClaimed, TournamentFinalized};
use crate::payout::{compute_payouts, share};

verus! {

/// Most participants one tournament admits.
pub const MAX_PARTICIPANTS: usize = 64;

/// Longest tournament identifier, in bytes.
pub const MAX_ID_LEN: usize = 50;

/// A payout declared at finalization: who receives it, how much, and whether
/// it has been withdrawn.
#[derive(Clone, Copy, Debug)]
pub struct Award {
    pub winner: Address,
    pub amount: u64,
    pub claimed: bool,
}

/// The record of one tournament and the balance of its escrow holder.
#[derive(Clone, Debug)]
pub struct Tournament {
    pub authority: Address,
    pub tournament_id: String,
    pub entry_fee: u64,
    pub total_pool: u64,
    pub participants: Vec<Address>,
    pub is_finalized: bool,
    /// Address of the escrow holder, derived from the identifier.
    pub escrow: Address,
    /// Bump seed that, with the identifier, derives `escrow`.
    pub bump: u8,
    /// Funds held by the escrow holder.
    pub escrow_lamports: u64,
    /// First, second and third place payouts; empty until finalization.
    pub awards: Vec<Award>,
}

/// Whether an address with the bytes of `p` occurs in `s`.
pub open spec fn is_participant(s: Seq<Address>, p: Address) -> bool {
    exists|i: int| 0 <= i < s.len() && s[i]@ == p@
}

/// No two entries of `s` have the same bytes.
pub open spec fn distinct_addresses(s: Seq<Address>) -> bool {
    forall|i: int, j: int| 0 <= i < j < s.len() ==> s[i]@ != s[j]@
}

/// What the award has paid out so far.
pub open spec fn claimed_amount(a: Award) -> int {
    if a.claimed {
        a.amount as int
    } else {
        0
    }
}

/// Sum of the payouts already withdrawn.
pub open spec fn claimed_total(awards: Seq<Award>) -> int {
    if awards.len() == 3 {
        claimed_amount(awards[0]) + claimed_amount(awards[1]) + claimed_amount(awards[2])
    } else {
        0
    }
}

/// The awards declared when placements `first`, `second`, `third` finalize a
/// tournament whose pool is `pool`.
pub open spec fn declared_awards(pool: int, first: Address, second: Address, third: Address) -> Seq<
    Award,
> {
    seq![
        Award { winner: first, amount: share(pool, 60) as u64, claimed: false },
        Award { winner: second, amount: share(pool, 30) as u64, claimed: false },
        Award { winner: third, amount: share(pool, 10) as u64, claimed: false },
    ]
}

/// The awards are the three shares of `pool`, in order of placement.
pub open spec fn awards_fit_pool(awards: Seq<Award>, pool: int) -> bool {
    &&& awards.len() == 3
    &&& awards[0].amount == share(pool, 60)
    &&& awards[1].amount == share(pool, 30)
    &&& awards[2].amount == share(pool, 10)
}

/// The award is an unclaimed payout of `amount` to `winner`.
pub open spec fn claimable(a: Award, winner: Address, amount: u64) -> bool {
    a.winner@ == winner@ && a.amount == amount && !a.claimed
}

impl Tournament {
    /// The record's invariant: the pool is one fee per participant, participants
    /// are distinct and at most `MAX_PARTICIPANTS`, awards exist exactly once
    /// finalized, and escrow holds the pool less what has been withdrawn.
    pub open spec fn wf(&self) -> bool {
        &&& self.participants@.len() <= MAX_PARTICIPANTS
        &&& self.total_pool == self.entry_fee * self.participants@.len()
        &&& distinct_addresses(self.participants@)
        &&& if self.is_finalized {
            awards_fit_pool(self.awards@, self.total_pool as int)
        } else {
            self.awards@.len() == 0
        }
        &&& self.escrow_lamports + claimed_total(self.awards@) == self.total_pool
    }

    /// Why `player`, holding `lamports`, cannot register; `None` when it can.
    pub open spec fn register_error(&self, player: Address, lamports: u64) -> Option<ErrorCode> {
        if self.is_finalized {
            Some(ErrorCode::TournamentFinalized)
        } else if is_participant(self.participants@, player) {
            Some(ErrorCode::AlreadyRegistered)
        } else if self.participants@.len() >= MAX_PARTICIPANTS {
            Some(ErrorCode::CapacityExceeded)
        } else if lamports < self.entry_fee {
            Some(ErrorCode::InsufficientFunds)
        } else if self.total_pool + self.entry_fee > u64::MAX {
            Some(ErrorCode::ArithmeticOverflow)
        } else {
            None
        }
    }

    /// `new` is this record with `player` appended and one entry fee paid into escrow.
    pub open spec fn registered(&self, new: Tournament, player: Address) -> bool {
        &&& new.participants@ == self.participants@.push(player)
        &&& new.total_pool == self.total_pool + self.entry_fee
        &&& new.escrow_lamports == self.escrow_lamports + self.entry_fee
        &&& new.authority == self.authority
        &&& new.tournament_id == self.tournament_id
        &&& new.entry_fee == self.entry_fee
        &&& new.is_finalized == self.is_finalized
        &&& new.escrow == self.escrow
        &&& new.bump == self.bump
        &&& new.awards == self.awards
    }

    /// `new` is what registering `player`, holding `lamports`, leaves of this
    /// record: the record itself when refused, else the registered record.
    pub open spec fn register_step(&self, new: Tournament, player: Address, lamports: u64) -> bool {
        match self.register_error(player, lamports) {
            Some(_) => new == *self,
            None => self.registered(new, player),
        }
    }

    /// Why `caller` cannot finalize; `None` when it can.
    pub open spec fn finalize_error(&self, caller: Address) -> Option<ErrorCode> {
        if self.is_finalized {
            Some(ErrorCode::TournamentFinalized)
        } else if caller@ != self.authority@ {
            Some(ErrorCode::Unauthorized)
        } else {
            None
        }
    }

    /// `new` is this record finalized with the given placements.
    pub open spec fn finalized(&self, new: Tournament, first: Address, second: Address, third: Address) -> bool {
        &&& new.is_finalized
        &&& new.awards@ == declared_awards(self.total_pool as int, first, second, third)
        &&& new.authority == self.authority
        &&& new.tournament_id == self.tournament_id
        &&& new.entry_fee == self.entry_fee
        &&& new.total_pool == self.total_pool
        &&& new.participants == self.participants
        &&& new.escrow == self.escrow
        &&& new.bump == self.bump
        &&& new.escrow_lamports == self.escrow_lamports
    }

    /// The first unclaimed award of `amount` to `winner`, if any.
    pub open spec fn claim_slot(&self, winner: Address, amount: u64) -> Option<int> {
        let a = self.awards@;
        if a.len() != 3 {
            None
        } else if claimable(a[0], winner, amount) {
            Some(0)
        } else if claimable(a[1], winner, amount) {
            Some(1)
        } else if claimable(a[2], winner, amount) {
            Some(2)
        } else {
            None
        }
    }

    /// Why `winner`, holding `lamports`, cannot withdraw `amount`; `None` when it can.
    pub open spec fn claim_error(&self, winner: Address, amount: u64, lamports: u64) -> Option<ErrorCode> {
        if !self.is_finalized {
            Some(ErrorCode::TournamentNotFinalized)
        } else if self.escrow_lamports < amount {
            Some(ErrorCode::InsufficientEscrowBalance)
        } else if self.claim_slot(winner, amount) is None {
            Some(ErrorCode::PrizeNotAwarded)
        } else if lamports + amount > u64::MAX {
            Some(ErrorCode::ArithmeticOverflow)
        } else {
            None
        }
    }

    /// `new` is this record with the award at `slot` withdrawn from escrow.
    pub open spec fn claimed(&self, new: Tournament, slot: int) -> bool {
        &&& new.awards@ == self.awards@.update(slot, Award { claimed: true, ..self.awards@[slot] })
        &&& new.escrow_lamports == self.escrow_lamports - self.awards@[slot].amount
        &&& new.authority == self.authority
        &&& new.tournament_id == self.tournament_id
        &&& new.entry_fee == self.entry_fee
        &&& new.total_pool == self.total_pool
        &&& new.participants == self.participants
        &&& new.is_finalized == self.is_finalized
        &&& new.escrow == self.escrow
        &&& new.bump == self.bump
    }

    /// An open tournament with no participants and an empty escrow.
    pub fn new(authority: Address, tournament_id: String, entry_fee: u64, escrow: Address, bump: u8) -> (r: Tournament)
        ensures
            r.wf(),
            r.authority == authority,
            r.tournament_id == tournament_id,
            r.entry_fee == entry_fee,
            r.total_pool == 0,
            r.participants@.len() == 0,
            !r.is_finalized,
            r.escrow == escrow,
            r.bump == bump,
            r.escrow_lamports == 0,
            r.awards@.len() == 0,
    {
        Tournament {
            authority,
            tournament_id,
            entry_fee,
            total_pool: 0,
            participants: Vec::new(),
            is_finalized: false,
            escrow,
            bump,
            escrow_lamports: 0,
            awards: Vec::new(),
        }
    }

    /// Whether the record satisfies its invariant; used on records read back
    /// from storage.
    pub fn is_well_formed(&self) -> (r: bool)
        ensures
            r == self.wf(),
    {
        let n = self.participants.len();
        if n > MAX_PARTICIPANTS {
            return false;
        }
        proof {
            let (f, k) = (self.entry_fee as int, n as int);
            assert(f * k <= 0xffff_ffff_ffff_ffff * 64) by (nonlinear_arith)
                requires 0 <= f <= 0xffff_ffff_ffff_ffff, 0 <= k <= 64;
        }
        if (self.total_pool as u128) != (self.entry_fee as u128) * (n as u128) {
            return false;
        }
        let mut i: usize = 0;
        while i < n
            invariant
                n == self.participants@.len(),
                0 <= i <= n,
                forall|a: int, b: int| 0 <= a < b < n && a < i ==> self.participants@[a]@ != self.participants@[b]@,
            decreases n - i,
        {
            let mut j: usize = i + 1;
            while j < n
                invariant
                    n == self.participants@.len(),
                    0 <= i < n,
                    i + 1 <= j <= n,
                    forall|a: int, b: int| 0 <= a < b < n && a < i ==> self.participants@[a]@ != self.participants@[b]@,
                    forall|b: int| i < b < j ==> self.participants@[i as int]@ != self.participants@[b]@,
                decreases n - j,
            {
                if self.participants[i] == self.participants[j] {
                    return false;
                }
                j = j + 1;
            }
            i = i + 1;
        }
        let claimed: u128;
        if self.is_finalized {
            if self.awards.len() != 3 {
                return false;
            }
            let (first, second, third) = compute_payouts(self.total_pool);
            if self.awards[0].amount != first || self.awards[1].amount != second || self.awards[2].amount != third {
                return false;
            }
            claimed = (if self.awards[0].claimed { self.awards[0].amount as u128 } else { 0 })
                + (if self.awards[1].claimed { self.awards[1].amount as u128 } else { 0 })
                + (if self.awards[2].claimed { self.awards[2].amount as u128 } else { 0 });
        } else {
            if self.awards.len() != 0 {
                return false;
            }
            claimed = 0;
        }
        (self.escrow_lamports as u128) + claimed == self.total_pool as u128
    }

    /// Whether `player` is among the participants.
    pub fn is_registered(&self, player: &Address) -> (r: bool)
        ensures
            r == is_participant(self.participants@, *player),
    {
        let mut i: usize = 0;
        while i < self.participants.len()
            invariant
                0 <= i <= self.participants@.len(),
                forall|j: int| 0 <= j < i ==> self.participants@[j]@ != player@,
            decreases self.participants@.len() - i,
        {
            if self.participants[i] == *player {
                return true;
            }
            i = i + 1;
        }
        false
    }

    /// Moves the entry fee from `player_lamports` into escrow and appends `player`.
    pub fn register(&mut self, player: Address, player_lamports: &mut u64) -> (r: Result<PlayerRegistered, ErrorCode>)
        requires
            old(self).wf(),
        ensures
            final(self).wf(),
            match old(self).register_error(player, *old(player_lamports)) {
                Some(e) => {
                    &&& r == Err::<PlayerRegistered, ErrorCode>(e)
                    &&& *final(self) == *old(self)
                    &&& *final(player_lamports) == *old(player_lamports)
                },
                None => {
                    &&& old(self).registered(*final(self), player)
                    &&& *final(player_lamports) == *old(player_lamports) - old(self).entry_fee
                    &&& r matches Ok(ev) && ev.tournament_id@ == old(self).tournament_id@
                        && ev.player == player && ev.entry_fee == old(self).entry_fee
                        && ev.total_pool == final(self).total_pool
                },
            },
    {
        if self.is_finalized {
            return Err(ErrorCode::TournamentFinalized);
        }
        if self.is_registered(&player) {
            return Err(ErrorCode::AlreadyRegistered);
        }
        if self.participants.len() >= MAX_PARTICIPANTS {
            return Err(ErrorCode::CapacityExceeded);
        }
        if *player_lamports < self.entry_fee {
            return Err(ErrorCode::InsufficientFunds);
        }
        if self.total_pool > u64::MAX - self.entry_fee {
            return Err(ErrorCode::ArithmeticOverflow);
        }
        let ghost len = self.participants@.len();
        proof {
            assert(self.entry_fee * (len + 1) == self.entry_fee * len + self.entry_fee) by (nonlinear_arith);
        }
        *player_lamports = *player_lamports - self.entry_fee;
        self.escrow_lamports = self.escrow_lamports + self.entry_fee;
        self.total_pool = self.total_pool + self.entry_fee;
        self.participants.push(player);
        proof {
            assert forall|i: int, j: int| 0 <= i < j < self.participants@.len() implies
                self.participants@[i]@ != self.participants@[j]@ by {
                if j == len {
                    assert(self.participants@[i] == old(self).participants@[i]);
                }
            }
        }
        Ok(PlayerRegistered {
            tournament_id: self.tournament_id.clone(),
            player,
            entry_fee: self.entry_fee,
            total_pool: self.total_pool,
        })
    }

    /// Locks the tournament and declares the three payouts, when `caller` is the authority.
    pub fn finalize(&mut self, caller: Address, first_place: Address, second_place: Address, third_place: Address) -> (r: Result<TournamentFinalized, ErrorCode>)
        requires
            old(self).wf(),
        ensures
            final(self).wf(),
            match old(self).finalize_error(caller) {
                Some(e) => r == Err::<TournamentFinalized, ErrorCode>(e) && *final(self) == *old(self),
                None => {
                    &&& old(self).finalized(*final(self), first_place, second_place, third_place)
                    &&& r matches Ok(ev) && ev.tournament_id@ == old(self).tournament_id@
                        && ev.first_place == first_place && ev.second_place == second_place
                        && ev.third_place == third_place
                        && ev.first_payout == share(old(self).total_pool as int, 60)
                        && ev.second_payout == share(old(self).total_pool as int, 30)
                        && ev.third_payout == share(old(self).total_pool as int, 10)
                },
            },
    {
        if self.is_finalized {
            return Err(ErrorCode::TournamentFinalized);
        }
        if caller != self.authority {
            return Err(ErrorCode::Unauthorized);
        }
        let (first_payout, second_payout, third_payout) = compute_payouts(self.total_pool);
        self.awards.push(Award { winner: first_place, amount: first_payout, claimed: false });
        self.awards.push(Award { winner: second_place, amount: second_payout, claimed: false });
        self.awards.push(Award { winner: third_place, amount: third_payout, claimed: false });
        self.is_finalized = true;
        assert(self.awards@ =~= declared_awards(self.total_pool as int, first_place, second_place, third_place));
        Ok(TournamentFinalized {
            tournament_id: self.tournament_id.clone(),
            first_place,
            second_place,
            third_place,
            first_payout,
            second_payout,
            third_payout,
        })
    }

    /// Pays `amount` from escrow into `winner_lamports`, consuming the first
    /// unclaimed award of that amount to `winner`.
    pub fn claim(&mut self, winner: Address, amount: u64, winner_lamports: &mut u64) -> (r: Result<PrizeClaimed, ErrorCode>)
        requires
            old(self).wf(),
        ensures
            final(self).wf(),
            match old(self).claim_error(winner, amount, *old(winner_lamports)) {
                Some(e) => {
                    &&& r == Err::<PrizeClaimed, ErrorCode>(e)
                    &&& *final(self) == *old(self)
                    &&& *final(winner_lamports) == *old(winner_lamports)
                },
                None => {
                    &&& old(self).claimed(*final(self), old(self).claim_slot(winner, amount)->0)
                    &&& *final(winner_lamports) == *old(winner_lamports) + amount
                    &&& r matches Ok(ev) && ev.tournament_id@ == old(self).tournament_id@
                        && ev.winner == winner && ev.amount == amount
                },
            },
    {
        if !self.is_finalized {
            return Err(ErrorCode::TournamentNotFinalized);
        }
        if self.escrow_lamports < amount {
            return Err(ErrorCode::InsufficientEscrowBalance);
        }
        let slot: usize;
        if self.awards.len() != 3 {
            return Err(ErrorCode::PrizeNotAwarded);
        }
        if self.awards[0].winner == winner && self.awards[0].amount == amount && !self.awards[0].claimed {
            slot = 0;
        } else if self.awards[1].winner == winner && self.awards[1].amount == amount && !self.awards[1].claimed {
            slot = 1;
        } else if self.awards[2].winner == winner && self.awards[2].amount == amount && !self.awards[2].claimed {
            slot = 2;
        } else {
            return Err(ErrorCode::PrizeNotAwarded);
        }
        if *winner_lamports > u64::MAX - amount {
            return Err(ErrorCode::ArithmeticOverflow);
        }
        self.escrow_lamports = self.escrow_lamports - amount;
        *winner_lamports = *winner_lamports + amount;
        let mut award = self.awards[slot];
        award.claimed = true;
        self.awards.set(slot, award);
        assert(self.awards@ =~= old(self).awards@.update(slot as int, Award { claimed: true, ..old(self).awards@[slot as int] }));
        Ok(PrizeClaimed { tournament_id: self.tournament_id.clone(), winner, amount })
    }
}

} // verus!
