//! Reward tiers, lock terms and the rate table that joins them.

use vstd::prelude::*;
use crate::error::StakingError;

verus! {

/// The four lock terms a depositor can choose.
#[derive(Clone, Copy, Debug, PartialEq, Eq, Structural)]
pub enum StakingDuration {
    Sixty,
    Ninety,
    OneEighty,
    ThreeSixtyFive,
}

impl StakingDuration {
    /// Length of the term in days.
    pub open spec fn spec_days(&self) -> i64 {
        match self {
            StakingDuration::Sixty => 60,
            StakingDuration::Ninety => 90,
            StakingDuration::OneEighty => 180,
            StakingDuration::ThreeSixtyFive => 365,
        }
    }

    /// Length of the term in days.
    #[verifier::when_used_as_spec(spec_days)]
    pub fn days(&self) -> (d: i64)
        ensures
            d == self.spec_days(),
    {
        match self {
            Self::Sixty => 60,
            Self::Ninety => 90,
            Self::OneEighty => 180,
            Self::ThreeSixtyFive => 365,
        }
    }
}

/// Reward tier of a deposit, fixed by its size in whole units.
#[derive(Clone, Copy, Debug, PartialEq, Eq, Structural)]
pub enum Tier {
    Bronze,
    Silver,
    Gold,
}

/// Whole-unit deposit size from which a stake is `Silver`.
pub const SILVER_FLOOR: u64 = 100_000;

/// Whole-unit deposit size from which a stake is `Gold`.
pub const GOLD_FLOOR: u64 = 300_000;

impl Tier {
    /// The tier of a deposit of `normalized` whole units.
    pub open spec fn classify(normalized: int) -> Tier {
        if normalized >= GOLD_FLOOR {
            Tier::Gold
        } else if normalized >= SILVER_FLOOR {
            Tier::Silver
        } else {
            Tier::Bronze
        }
    }

    /// Yearly rate in basis points for this tier and a term of `days`, or
    /// `None` where `days` is no offered term.
    pub open spec fn rate(&self, days: int) -> Option<int> {
        if days == 60 {
            Some(
                match self {
                    Tier::Bronze => 400int,
                    Tier::Silver => 600int,
                    Tier::Gold => 800int,
                },
            )
        } else if days == 90 {
            Some(
                match self {
                    Tier::Bronze => 600int,
                    Tier::Silver => 900int,
                    Tier::Gold => 1200int,
                },
            )
        } else if days == 180 {
            Some(
                match self {
                    Tier::Bronze => 800int,
                    Tier::Silver => 1200int,
                    Tier::Gold => 1600int,
                },
            )
        } else if days == 365 {
            Some(
                match self {
                    Tier::Bronze => 1000int,
                    Tier::Silver => 1500int,
                    Tier::Gold => 2000int,
                },
            )
        } else {
            None
        }
    }

    /// Classifies a deposit by its size in whole units. Never fails.
    pub fn from_amount(normalized: u64) -> (r: Result<Tier, StakingError>)
        ensures
            r == Ok::<Tier, StakingError>(Tier::classify(normalized as int)),
    {
        if normalized >= GOLD_FLOOR {
            Ok(Self::Gold)
        } else if normalized >= SILVER_FLOOR {
            Ok(Self::Silver)
        } else {
            Ok(Self::Bronze)
        }
    }

    /// Looks up the yearly rate in basis points for a term of `days`.
    /// Fails with `InvalidDuration` exactly when `days` is none of 60, 90,
    /// 180 and 365.
    pub fn apy_bp(&self, days: u64) -> (r: Result<u64, StakingError>)
        ensures
            match self.rate(days as int) {
                Some(bp) => r == Ok::<u64, StakingError>(bp as u64),
                None => r == Err::<u64, StakingError>(StakingError::InvalidDuration),
            },
    {
        let col: usize = if days == 60 {
            0
        } else if days == 90 {
            1
        } else if days == 180 {
            2
        } else if days == 365 {
            3
        } else {
            return Err(StakingError::InvalidDuration);
        };
        let table: [u64; 4] = match self {
            Self::Bronze => [400, 600, 800, 1000],
            Self::Silver => [600, 900, 1200, 1500],
            Self::Gold => [800, 1200, 1600, 2000],
        };
        Ok(table[col])
    }
}

} // verus!
