//! Staking: locking a deposit for a term, with the reward fixed up front.
//!
//! The engine checks the preconditions in a fixed order and commits the
//! whole effect or none of it. The deposit itself is returned as an order
//! for the host to carry out.

use vstd::prelude::*;
use crate::accounts::StakeTokens;
use crate::error::StakingError;
use crate::identity::Identity;
use crate::reward::{calculate_simple_reward, lemma_table_reward_fits, reward_of};
use crate::scale::{
    asset_scale, lemma_minimum_stake, minimum_stake, pow10, DECIMALS, MINIMUM_STAKE_UNITS,
};
use crate::state::{StakeAccount, StakeCounter, Transfer};
use crate::tier::{StakingDuration, Tier};

verus! {

/// Seconds in a day.
pub const DAY_SECONDS: i64 = 86_400;

/// What a successful stake returns: the identity of the new record and the
/// deposit to carry out.
#[derive(Clone, Copy, Debug, PartialEq, Eq)]
pub struct StakeReceipt {
    pub staker: Identity,
    pub index: u64,
    pub deposit: Transfer,
}

/// The first precondition of a stake that fails, in the order in which they
/// are checked, or `None` where the stake goes through.
pub open spec fn stake_rejection(pre: StakeTokens, amount: u64) -> Option<StakingError> {
    if pre.vault_token_account.owner != pre.vault_authority {
        Some(StakingError::InvalidVaultOwner)
    } else if pre.rewards_token_account.owner != pre.vault_authority {
        Some(StakingError::InvalidVaultOwner)
    } else if pre.config.paused_staking {
        Some(StakingError::StakingPaused)
    } else if pre.mint.decimals != DECIMALS {
        Some(StakingError::InvalidDecimals)
    } else if amount < minimum_stake() {
        Some(StakingError::BelowMinimum)
    } else if pre.user_token_account.amount < amount {
        Some(StakingError::InsufficientTokenBalance)
    } else if pre.user_token_account.mint != pre.config.stake_mint {
        Some(StakingError::UnauthorizedToken)
    } else if pre.mint.key != pre.config.stake_mint {
        Some(StakingError::InvalidMint)
    } else if pre.stake_counter.count == u64::MAX {
        Some(StakingError::Overflow)
    } else {
        None
    }
}

/// The tier of a deposit of `amount` base units.
pub open spec fn stake_tier(amount: u64) -> Tier {
    Tier::classify(amount as int / pow10(DECIMALS as nat) as int)
}

/// The reward on a deposit of `amount` base units locked for `duration`.
pub open spec fn stake_reward(amount: u64, duration: StakingDuration) -> int {
    reward_of(
        amount as int,
        stake_tier(amount).rate(duration.days() as int).unwrap(),
        duration.days() as int,
    )
}

/// The record that a stake of `amount` for `duration` at time `now` writes.
pub open spec fn staked_record(pre: StakeTokens, amount: u64, duration: StakingDuration, now: i64)
    -> StakeAccount {
    StakeAccount {
        staker: pre.user,
        deposit_amount: amount,
        reward_amount: stake_reward(amount, duration) as u64,
        start_time: now,
        duration: (duration.days() * DAY_SECONDS) as i64,
        claimed: false,
        tier: stake_tier(amount),
        index: pre.stake_counter.count,
    }
}

/// The deposit that a stake orders: from the depositor into the vault.
pub open spec fn stake_deposit(pre: StakeTokens, amount: u64) -> Transfer {
    Transfer {
        from: pre.user_token_account.key,
        mint: pre.mint.key,
        to: pre.vault_token_account.key,
        authority: pre.user,
        amount,
        decimals: pre.mint.decimals,
    }
}

/// The accounts after a stake, and what it returns: on a rejection the
/// accounts as they were and the error; else the new record, the counter
/// advanced by one, and the receipt.
pub open spec fn stake_outcome(pre: StakeTokens, amount: u64, duration: StakingDuration, now: i64)
    -> (StakeTokens, Result<StakeReceipt, StakingError>) {
    match stake_rejection(pre, amount) {
        Some(e) => (pre, Err(e)),
        None => (
            StakeTokens {
                stake_account: staked_record(pre, amount, duration, now),
                stake_counter: StakeCounter { count: (pre.stake_counter.count + 1) as u64 },
                ..pre
            },
            Ok(
                StakeReceipt {
                    staker: pre.user,
                    index: pre.stake_counter.count,
                    deposit: stake_deposit(pre, amount),
                },
            ),
        ),
    }
}

/// Locks `amount` base units for `duration`, starting at `now`.
///
/// The preconditions are checked in the order of `stake_rejection`. Where
/// one fails the accounts stay as they were. Otherwise the reward is fixed
/// from the tier and the term, the record is written under the counter's
/// value, the counter advances, and the deposit is returned for the host to
/// carry out. The reward, the term in seconds and the new counter are
/// within range of their fields: nothing is truncated.
pub fn stake_tokens(
    accounts: &mut StakeTokens,
    amount: u64,
    duration: StakingDuration,
    now: i64,
) -> (r: Result<StakeReceipt, StakingError>)
    ensures
        (*final(accounts), r) == stake_outcome(*old(accounts), amount, duration, now),
        r is Ok ==> final(accounts).stake_account.reward_amount == stake_reward(amount, duration),
        r is Ok ==> final(accounts).stake_account.duration == duration.days() * DAY_SECONDS,
        r is Ok ==> final(accounts).stake_counter.count == old(accounts).stake_counter.count + 1,
{
    proof {
        lemma_minimum_stake();
    }
    match accounts.validate_owner() {
        Ok(()) => {},
        Err(e) => {
            return Err(e);
        },
    }
    if !(accounts.rewards_token_account.owner == accounts.vault_authority) {
        return Err(StakingError::InvalidVaultOwner);
    }
    if accounts.config.paused_staking {
        return Err(StakingError::StakingPaused);
    }
    if accounts.mint.decimals != DECIMALS {
        return Err(StakingError::InvalidDecimals);
    }
    let scale: u64 = match asset_scale(accounts.mint.decimals) {
        Some(scale) => scale,
        None => {
            return Err(StakingError::Overflow);
        },
    };
    let minimum_stake: u64 = match MINIMUM_STAKE_UNITS.checked_mul(scale) {
        Some(minimum_stake) => minimum_stake,
        None => {
            return Err(StakingError::Overflow);
        },
    };
    if amount < minimum_stake {
        return Err(StakingError::BelowMinimum);
    }
    if accounts.user_token_account.amount < amount {
        return Err(StakingError::InsufficientTokenBalance);
    }
    if !(accounts.user_token_account.mint == accounts.config.stake_mint) {
        return Err(StakingError::UnauthorizedToken);
    }
    match accounts.validate() {
        Ok(()) => {},
        Err(e) => {
            return Err(e);
        },
    }
    let normalized: u64 = amount / scale;
    let tier = match Tier::from_amount(normalized) {
        Ok(tier) => tier,
        Err(e) => {
            return Err(e);
        },
    };
    let days: u64 = duration.days() as u64;
    let apy_bp: u64 = match tier.apy_bp(days) {
        Ok(apy_bp) => apy_bp,
        Err(e) => {
            return Err(e);
        },
    };
    proof {
        lemma_table_reward_fits(amount, tier, days);
    }
    let reward: u64 = match calculate_simple_reward(amount, apy_bp, days) {
        Ok(reward) => reward,
        Err(e) => {
            return Err(e);
        },
    };
    let index: u64 = accounts.stake_counter.count;
    let next: u64 = match index.checked_add(1) {
        Some(next) => next,
        None => {
            return Err(StakingError::Overflow);
        },
    };
    let receipt = StakeReceipt {
        staker: accounts.user,
        index,
        deposit: Transfer {
            from: accounts.user_token_account.key,
            mint: accounts.mint.key,
            to: accounts.vault_token_account.key,
            authority: accounts.user,
            amount,
            decimals: accounts.mint.decimals,
        },
    };
    accounts.stake_account = StakeAccount {
        staker: accounts.user,
        deposit_amount: amount,
        reward_amount: reward,
        start_time: now,
        duration: duration.days() * DAY_SECONDS,
        claimed: false,
        tier,
        index,
    };
    accounts.stake_counter.count = next;
    Ok(receipt)
}

} // verus!
