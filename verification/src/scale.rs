//! Decimal scaling between whole units of an asset and its base units.

use vstd::prelude::*;

verus! {

/// The only decimal precision of an accepted asset.
pub const DECIMALS: u8 = 6;

/// Smallest deposit, in whole units.
pub const MINIMUM_STAKE_UNITS: u64 = 100;

/// Ten to the power `e`: the base units in one whole unit of an asset with
/// `e` decimals.
pub open spec fn pow10(e: nat) -> nat
    decreases e,
{
    if e == 0 {
        1
    } else {
        10 * pow10((e - 1) as nat)
    }
}

/// `pow10` never shrinks as the exponent grows.
pub proof fn lemma_pow10_monotonic(a: nat, b: nat)
    requires
        a <= b,
    ensures
        1 <= pow10(a) <= pow10(b),
    decreases b,
{
    if a == 0 && b == 0 {
    } else if a == b {
        lemma_pow10_monotonic((a - 1) as nat, (b - 1) as nat);
    } else {
        lemma_pow10_monotonic(a, (b - 1) as nat);
    }
}

/// With six decimals a whole unit is a million base units.
pub proof fn lemma_pow10_six()
    ensures
        pow10(6) == 1_000_000,
{
    reveal_with_fuel(pow10, 7);
}

/// Smallest deposit, in base units: a hundred whole units of an asset with
/// six decimals.
pub open spec fn minimum_stake() -> int {
    MINIMUM_STAKE_UNITS * pow10(DECIMALS as nat)
}

/// The smallest deposit is a hundred million base units.
pub proof fn lemma_minimum_stake()
    ensures
        pow10(DECIMALS as nat) == 1_000_000,
        minimum_stake() == 100_000_000,
{
    lemma_pow10_six();
}

/// The base units in one whole unit of an asset with `decimals` decimals, or
/// `None` where that number does not fit in 64 bits.
pub fn asset_scale(decimals: u8) -> (r: Option<u64>)
    ensures
        pow10(decimals as nat) <= u64::MAX ==> r == Some(pow10(decimals as nat) as u64),
        pow10(decimals as nat) > u64::MAX ==> r.is_none(),
{
    let mut scale: u64 = 1;
    let mut i: u8 = 0;
    while i < decimals
        invariant
            i <= decimals,
            scale == pow10(i as nat),
        decreases decimals - i,
    {
        match scale.checked_mul(10) {
            Some(next) => {
                scale = next;
            },
            None => {
                proof {
                    lemma_pow10_monotonic((i + 1) as nat, decimals as nat);
                }
                return None;
            },
        }
        i += 1;
    }
    Some(scale)
}

} // verus!
