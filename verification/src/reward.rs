//! Simple, non-compounding interest, pro-rated to the days of the term.

use vstd::prelude::*;
use crate::error::StakingError;
use crate::tier::Tier;

verus! {

/// Basis points in a whole, times the days of a year: the divisor of the
/// reward formula.
pub const REWARD_DIVISOR: u128 = 3_650_000;

/// The reward on `principal` at `apy_bp` basis points a year over `days`
/// days, rounded down.
pub open spec fn reward_of(principal: int, apy_bp: int, days: int) -> int {
    principal * apy_bp * days / 3_650_000
}

/// What computing the reward returns: the reward where it fits in 64 bits,
/// else `Overflow`.
pub open spec fn reward_outcome(principal: u64, apy_bp: u64, days: u64) -> Result<
    u64,
    StakingError,
> {
    let reward = reward_of(principal as int, apy_bp as int, days as int);
    if reward <= u64::MAX {
        Ok(reward as u64)
    } else {
        Err(StakingError::Overflow)
    }
}

/// Computes the reward of `reward_of` in 128-bit arithmetic. Fails with
/// `Overflow` exactly when the reward does not fit in 64 bits.
pub fn calculate_simple_reward(principal: u64, apy_bp: u64, days: u64) -> (r: Result<
    u64,
    StakingError,
>)
    ensures
        r == reward_outcome(principal, apy_bp, days),
{
    assert(principal * apy_bp <= 0xffff_ffff_ffff_ffff * 0xffff_ffff_ffff_ffff)
        by (nonlinear_arith)
        requires
            principal <= 0xffff_ffff_ffff_ffff,
            apy_bp <= 0xffff_ffff_ffff_ffff,
    ;
    let yearly: u128 = (principal as u128) * (apy_bp as u128);
    let num: u128 = match yearly.checked_mul(days as u128) {
        Some(num) => num,
        None => {
            return Err(StakingError::Overflow);
        },
    };
    let reward: u128 = num / REWARD_DIVISOR;
    if reward > u64::MAX as u128 {
        return Err(StakingError::Overflow);
    }
    Ok(reward as u64)
}

/// At a rate of the table and over its term, the reward is at most a fifth
/// of the principal, so computing it cannot overflow.
pub proof fn lemma_table_reward_fits(principal: u64, tier: Tier, days: u64)
    requires
        tier.rate(days as int) is Some,
    ensures
        0 <= reward_of(principal as int, tier.rate(days as int).unwrap(), days as int)
            <= principal / 5,
{
    let bp = tier.rate(days as int).unwrap();
    assert(0 <= principal * bp * days <= principal * 730_000) by (nonlinear_arith)
        requires
            0 <= bp <= 2000,
            0 <= days <= 365,
            0 <= principal,
    ;
}

} // verus!
