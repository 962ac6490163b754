//! Claiming: paying out principal and reward once the term has elapsed,
//! within the cap on what one epoch of thirty days may pay.
//!
//! The engine checks the preconditions in a fixed order and commits the
//! whole effect or none of it. The two payments are returned as orders for
//! the host to carry out.

use vstd::prelude::*;
use crate::accounts::ClaimRewards;
use crate::authority::{find_program_address, vault_authority_of, VAULT_AUTH_SEED};
use crate::error::StakingError;
use crate::identity::Identity;
use crate::scale::{asset_scale, pow10};
use crate::state::{Config, StakeAccount, Transfer};

verus! {

/// Seconds in an epoch of thirty days.
pub const EPOCH_SECONDS: i64 = 2_592_000;

/// What a successful claim returns: the two payments to carry out, both or
/// neither.
#[derive(Clone, Copy, Debug, PartialEq, Eq)]
pub struct ClaimPayout {
    /// The principal, out of the vault.
    pub principal: Transfer,
    /// The reward, out of the rewards pool.
    pub reward: Transfer,
}

/// Whether the epoch that the configuration records is over at `now`: more
/// than thirty days have passed since it began.
pub open spec fn epoch_elapsed(config: Config, now: i64) -> bool {
    now > config.last_epoch_start + EPOCH_SECONDS
}

/// The rewards already counted against the cap at `now`: none where the
/// recorded epoch is over, since the claim then opens a new one.
pub open spec fn distributed_at(config: Config, now: i64) -> u64 {
    if epoch_elapsed(config, now) {
        0
    } else {
        config.monthly_distributed
    }
}

/// The cap on an epoch's rewards in base units of an asset with `decimals`
/// decimals.
pub open spec fn cap_base_units(config: Config, decimals: u8) -> int {
    config.monthly_cap * pow10(decimals as nat)
}

/// Whether the cap can be held in base units: both the base units in a
/// whole unit and the cap in base units fit in 64 bits.
pub open spec fn cap_in_range(config: Config, decimals: u8) -> bool {
    &&& pow10(decimals as nat) <= u64::MAX
    &&& cap_base_units(config, decimals) <= u64::MAX
}

/// Whether a claim passes the checks of authority: the caller is the
/// record's staker, both custody accounts are owned by the vault authority,
/// and the vault authority is the address derived for it.
pub open spec fn claim_authorized(pre: ClaimRewards, expected_authority: Option<Seq<u8>>) -> bool {
    &&& pre.stake_account.staker == pre.user
    &&& pre.vault_token_account.owner == pre.vault_authority
    &&& pre.rewards_token_account.owner == pre.vault_authority
    &&& expected_authority == Some(pre.vault_authority@)
}

/// The first precondition of a claim that fails, in the order in which they
/// are checked, or `None` where the claim goes through.
/// `expected_authority` is the address derived for the vault authority.
pub open spec fn claim_rejection(
    pre: ClaimRewards,
    expected_authority: Option<Seq<u8>>,
    now: i64,
) -> Option<StakingError> {
    if pre.stake_account.staker != pre.user {
        Some(StakingError::Unauthorized)
    } else if pre.vault_token_account.owner != pre.vault_authority {
        Some(StakingError::InvalidVaultOwner)
    } else if pre.rewards_token_account.owner != pre.vault_authority {
        Some(StakingError::InvalidVaultOwner)
    } else if expected_authority != Some(pre.vault_authority@) {
        Some(StakingError::Unauthorized)
    } else if pre.stake_account.claimed {
        Some(StakingError::AlreadyClaimed)
    } else if now < pre.stake_account.unlock_time() {
        Some(StakingError::StillLocked)
    } else if pre.rewards_token_account.amount < pre.stake_account.reward_amount {
        Some(StakingError::InsufficientRewards)
    } else if pre.mint.key != pre.config.stake_mint {
        Some(StakingError::InvalidMint)
    } else if !cap_in_range(pre.config, pre.mint.decimals) {
        Some(StakingError::Overflow)
    } else if distributed_at(pre.config, now) + pre.stake_account.reward_amount > cap_base_units(
        pre.config,
        pre.mint.decimals,
    ) {
        Some(StakingError::MonthlyCapReached)
    } else {
        None
    }
}

/// The configuration after a claim at `now` went through: a new epoch opened
/// where the old one was over, and the reward counted.
pub open spec fn claimed_config(pre: ClaimRewards, now: i64) -> Config {
    Config {
        monthly_distributed: (distributed_at(pre.config, now)
            + pre.stake_account.reward_amount) as u64,
        last_epoch_start: if epoch_elapsed(pre.config, now) {
            now
        } else {
            pre.config.last_epoch_start
        },
        ..pre.config
    }
}

/// The two payments that a claim orders: the principal out of the vault and
/// the reward out of the rewards pool, both to the depositor and both signed
/// for by the vault authority.
pub open spec fn claim_payout(pre: ClaimRewards) -> ClaimPayout {
    ClaimPayout {
        principal: Transfer {
            from: pre.vault_token_account.key,
            mint: pre.mint.key,
            to: pre.user_token_account.key,
            authority: pre.vault_authority,
            amount: pre.stake_account.deposit_amount,
            decimals: pre.mint.decimals,
        },
        reward: Transfer {
            from: pre.rewards_token_account.key,
            mint: pre.mint.key,
            to: pre.user_token_account.key,
            authority: pre.vault_authority,
            amount: pre.stake_account.reward_amount,
            decimals: pre.mint.decimals,
        },
    }
}

/// The accounts after a claim, and what it returns: on a rejection the
/// accounts as they were and the error; else the record marked as claimed,
/// the configuration of `claimed_config`, and the two payments.
pub open spec fn claim_outcome(
    pre: ClaimRewards,
    expected_authority: Option<Seq<u8>>,
    now: i64,
) -> (ClaimRewards, Result<ClaimPayout, StakingError>) {
    match claim_rejection(pre, expected_authority, now) {
        Some(e) => (pre, Err(e)),
        None => (
            ClaimRewards {
                stake_account: StakeAccount { claimed: true, ..pre.stake_account },
                config: claimed_config(pre, now),
                ..pre
            },
            Ok(claim_payout(pre)),
        ),
    }
}

/// An address by its bytes, where there is one.
pub open spec fn authority_view(authority: Option<Identity>) -> Option<Seq<u8>> {
    match authority {
        Some(key) => Some(key@),
        None => None,
    }
}

/// Pays out a stake at `now`, given the address that was derived for the
/// vault authority (`None` where none could be derived).
///
/// The preconditions are checked in the order of `claim_rejection`. Where
/// one fails the accounts stay as they were, the configuration's epoch
/// included. Otherwise the record is marked as claimed, the reward is
/// counted against the cap of the epoch that holds `now`, and the two
/// payments are returned for the host to carry out. After a claim that went
/// through, the rewards counted are within the cap.
pub fn settle_claim(
    accounts: &mut ClaimRewards,
    expected_authority: Option<Identity>,
    now: i64,
) -> (r: Result<ClaimPayout, StakingError>)
    ensures
        (*final(accounts), r) == claim_outcome(
            *old(accounts),
            authority_view(expected_authority),
            now,
        ),
        r is Ok ==> final(accounts).config.monthly_distributed == distributed_at(
            old(accounts).config,
            now,
        ) + old(accounts).stake_account.reward_amount,
        r is Ok ==> final(accounts).config.monthly_distributed <= cap_base_units(
            final(accounts).config,
            final(accounts).mint.decimals,
        ),
{
    if !(accounts.stake_account.staker == accounts.user) {
        return Err(StakingError::Unauthorized);
    }
    if !(accounts.vault_token_account.owner == accounts.vault_authority) {
        return Err(StakingError::InvalidVaultOwner);
    }
    if !(accounts.rewards_token_account.owner == accounts.vault_authority) {
        return Err(StakingError::InvalidVaultOwner);
    }
    match expected_authority {
        Some(expected) => {
            proof {
                Identity::lemma_view_injective(expected, accounts.vault_authority);
            }
            if !(accounts.vault_authority == expected) {
                return Err(StakingError::Unauthorized);
            }
        },
        None => {
            return Err(StakingError::Unauthorized);
        },
    }
    if accounts.stake_account.claimed {
        return Err(StakingError::AlreadyClaimed);
    }
    let unlock: i128 = accounts.stake_account.start_time as i128
        + accounts.stake_account.duration as i128;
    if (now as i128) < unlock {
        return Err(StakingError::StillLocked);
    }
    let reward: u64 = accounts.stake_account.reward_amount;
    if accounts.rewards_token_account.amount < reward {
        return Err(StakingError::InsufficientRewards);
    }
    match accounts.validate() {
        Ok(()) => {},
        Err(e) => {
            return Err(e);
        },
    }
    let rollover: bool = now as i128 > accounts.config.last_epoch_start as i128
        + EPOCH_SECONDS as i128;
    let distributed: u64 = if rollover {
        0
    } else {
        accounts.config.monthly_distributed
    };
    let scale: u64 = match asset_scale(accounts.mint.decimals) {
        Some(scale) => scale,
        None => {
            return Err(StakingError::Overflow);
        },
    };
    let cap: u64 = match accounts.config.monthly_cap.checked_mul(scale) {
        Some(cap) => cap,
        None => {
            return Err(StakingError::Overflow);
        },
    };
    if distributed as u128 + reward as u128 > cap as u128 {
        return Err(StakingError::MonthlyCapReached);
    }
    let payout = ClaimPayout {
        principal: Transfer {
            from: accounts.vault_token_account.key,
            mint: accounts.mint.key,
            to: accounts.user_token_account.key,
            authority: accounts.vault_authority,
            amount: accounts.stake_account.deposit_amount,
            decimals: accounts.mint.decimals,
        },
        reward: Transfer {
            from: accounts.rewards_token_account.key,
            mint: accounts.mint.key,
            to: accounts.user_token_account.key,
            authority: accounts.vault_authority,
            amount: reward,
            decimals: accounts.mint.decimals,
        },
    };
    if rollover {
        accounts.config.last_epoch_start = now;
    }
    accounts.config.monthly_distributed = distributed + reward;
    accounts.stake_account.claimed = true;
    Ok(payout)
}

/// Pays out a stake at `now`, under the program `program_id`.
///
/// Derives the vault authority's address from `program_id` and settles the
/// claim against it: the contract is that of `settle_claim`, with the
/// derived address in the place of the expected one.
pub fn claim_rewards(accounts: &mut ClaimRewards, program_id: &Identity, now: i64) -> (r: Result<
    ClaimPayout,
    StakingError,
>)
    ensures
        (*final(accounts), r) == claim_outcome(
            *old(accounts),
            vault_authority_of(program_id@),
            now,
        ),
        r is Ok ==> final(accounts).config.monthly_distributed == distributed_at(
            old(accounts).config,
            now,
        ) + old(accounts).stake_account.reward_amount,
        r is Ok ==> final(accounts).config.monthly_distributed <= cap_base_units(
            final(accounts).config,
            final(accounts).mint.decimals,
        ),
{
    let expected_authority: Option<Identity> = match find_program_address(
        VAULT_AUTH_SEED,
        program_id,
    ) {
        Some((key, _)) => Some(key),
        None => None,
    };
    settle_claim(accounts, expected_authority, now)
}

} // verus!
