use vstd::prelude::*;

verus! {

/// Share of the pool, in percent, paid to first place.
pub const FIRST_PERCENT: u64 = 60;

/// Share of the pool, in percent, paid to second place.
pub const SECOND_PERCENT: u64 = 30;

/// Share of the pool, in percent, paid to third place.
pub const THIRD_PERCENT: u64 = 10;

/// `percent` percent of `pool`, rounded down.
pub open spec fn share(pool: int, percent: int) -> int {
    pool * percent / 100
}

/// The three rounded-down shares never add up to more than the pool.
pub proof fn lemma_payouts_within_pool(pool: int)
    requires
        pool >= 0,
    ensures
        0 <= share(pool, 10) <= share(pool, 30) <= share(pool, 60) <= pool,
        share(pool, 60) + share(pool, 30) + share(pool, 10) <= pool,
{
    assert(0 <= pool * 10 / 100 <= pool * 30 / 100 <= pool * 60 / 100 <= pool) by (nonlinear_arith)
        requires pool >= 0;
    assert(pool * 60 / 100 + pool * 30 / 100 + pool * 10 / 100 <= pool) by (nonlinear_arith)
        requires pool >= 0;
}

/// Splits `total_pool` into the first, second and third place payouts.
/// Each share is truncated on its own, so the split may leave a remainder.
pub fn compute_payouts(total_pool: u64) -> (r: (u64, u64, u64))
    ensures
        r.0 == share(total_pool as int, 60),
        r.1 == share(total_pool as int, 30),
        r.2 == share(total_pool as int, 10),
{
    proof {
        lemma_payouts_within_pool(total_pool as int);
    }
    let pool = total_pool as u128;
    let first = (pool * (FIRST_PERCENT as u128) / 100) as u64;
    let second = (pool * (SECOND_PERCENT as u128) / 100) as u64;
    let third = (pool * (THIRD_PERCENT as u128) / 100) as u64;
    (first, second, third)
}

} // verus!
