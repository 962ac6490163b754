//! The persisted records: the global configuration, a depositor's counter
//! and stake records, and what the engine reads of token accounts.

use vstd::prelude::*;
use crate::identity::Identity;
use crate::tier::Tier;

verus! {

/// The singleton configuration: who administers the deployment, which asset
/// it accepts, and how much reward the running epoch has paid out.
#[derive(Clone, Copy, Debug, PartialEq, Eq)]
pub struct Config {
    /// Who may pause staking and change the cap; all zero until set.
    pub admin: Identity,
    /// The only asset accepted.
    pub stake_mint: Identity,
    /// Cap on the rewards of one epoch, in whole units.
    pub monthly_cap: u64,
    /// Blocks new stakes, never claims.
    pub paused_staking: bool,
    /// Rewards paid out in the running epoch, in base units.
    pub monthly_distributed: u64,
    /// When the running epoch began.
    pub last_epoch_start: i64,
}

impl Config {
    /// Bytes of the stored record.
    pub const LEN: usize = 32 + 32 + 8 + 1 + 1 + 8 + 8;
}

/// One deposit: written once by `stake_tokens`, marked by `claim_rewards`,
/// never deleted.
#[derive(Clone, Copy, Debug, PartialEq, Eq)]
pub struct StakeAccount {
    /// The depositor.
    pub staker: Identity,
    /// Principal, in base units.
    pub deposit_amount: u64,
    /// Reward, in base units, fixed when the stake was made.
    pub reward_amount: u64,
    /// When the stake was made.
    pub start_time: i64,
    /// Length of the term, in seconds.
    pub duration: i64,
    /// Whether principal and reward were paid out.
    pub claimed: bool,
    /// Tier of the deposit.
    pub tier: Tier,
    /// Position among the depositor's stakes.
    pub index: u64,
}

impl StakeAccount {
    /// Bytes of the stored record.
    pub const LEN: usize = 32 + 8 + 8 + 8 + 8 + 1 + 1 + 8;

    /// The first moment at which the stake can be claimed.
    pub open spec fn unlock_time(&self) -> int {
        self.start_time + self.duration
    }
}

/// How many stakes a depositor has made: the index of the next one.
#[derive(Clone, Copy, Debug, PartialEq, Eq)]
pub struct StakeCounter {
    pub count: u64,
}

/// What the engine reads of a token account.
#[derive(Clone, Copy, Debug, PartialEq, Eq)]
pub struct TokenAccount {
    /// Address of the account itself.
    pub key: Identity,
    /// The asset it holds.
    pub mint: Identity,
    /// Who may spend from it.
    pub owner: Identity,
    /// Balance, in base units.
    pub amount: u64,
}

/// What the engine reads of an asset's mint.
#[derive(Clone, Copy, Debug, PartialEq, Eq)]
pub struct Mint {
    /// Address of the mint: the identity of the asset.
    pub key: Identity,
    /// Decimal digits of a whole unit.
    pub decimals: u8,
}

/// An order to move `amount` base units of `mint` from one token account to
/// another, signed for by `authority`. The engine decides it; the host
/// carries it out, wholly or not at all.
#[derive(Clone, Copy, Debug, PartialEq, Eq)]
pub struct Transfer {
    pub from: Identity,
    pub mint: Identity,
    pub to: Identity,
    pub authority: Identity,
    pub amount: u64,
    pub decimals: u8,
}

} // verus!
