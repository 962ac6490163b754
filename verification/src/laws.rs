//! What holds of the engine across calls, proved from the models that the
//! operations' contracts are stated in.

use vstd::prelude::*;
use crate::accounts::{ClaimRewards, Initialize, StakeTokens};
use crate::admin::initialize_outcome;
use crate::claim::{
    cap_base_units, cap_in_range, claim_authorized, claim_outcome, claim_payout, claim_rejection,
    distributed_at, epoch_elapsed, ClaimPayout,
};
use crate::error::StakingError;
use crate::identity::Identity;
use crate::reward::{lemma_table_reward_fits, reward_outcome};
use crate::scale::{lemma_minimum_stake, minimum_stake, DECIMALS};
use crate::stake::{stake_outcome, stake_rejection, StakeReceipt};
use crate::state::{Config, StakeCounter};
use crate::tier::{StakingDuration, Tier};

verus! {

/// For every tier and every offered term, computing the reward at the
/// table's rate succeeds and gives the principal times the rate times the
/// days, over 3,650,000, rounded down.
pub proof fn lemma_reward_at_table_rate(principal: u64, tier: Tier, days: u64)
    requires
        days == 60 || days == 90 || days == 180 || days == 365,
    ensures
        tier.rate(days as int) is Some,
        0 <= tier.rate(days as int).unwrap() <= u64::MAX,
        0 <= (principal * tier.rate(days as int).unwrap() * days) / 3_650_000 <= u64::MAX,
        reward_outcome(principal, tier.rate(days as int).unwrap() as u64, days) == Ok::<
            u64,
            StakingError,
        >(((principal * tier.rate(days as int).unwrap() * days) / 3_650_000) as u64),
{
    lemma_table_reward_fits(principal, tier, days);
}

/// The configuration is set once: after an `initialize` that went through
/// for a signer whose identity is not all zero, every further `initialize`,
/// by whomever and with whatever arguments, fails with `AlreadyInitialized`
/// and changes nothing.
pub proof fn lemma_initialize_once(
    pre: Initialize,
    stake_mint: Identity,
    monthly_cap: u64,
    now: i64,
    later_admin: Identity,
    later_mint: Identity,
    later_cap: u64,
    later: i64,
)
    requires
        initialize_outcome(pre, stake_mint, monthly_cap, now).1 is Ok,
        !pre.admin.is_unset(),
    ensures
        ({
            let set = Initialize {
                admin: later_admin,
                ..initialize_outcome(pre, stake_mint, monthly_cap, now).0
            };
            initialize_outcome(set, later_mint, later_cap, later) == (
                set,
                Err::<(), StakingError>(StakingError::AlreadyInitialized),
            )
        }),
{
}

/// Pausing blocks new stakes only: whether a claim goes through, and with
/// which error it fails, does not depend on the pause flag.
pub proof fn lemma_pause_does_not_block_claims(
    pre: ClaimRewards,
    expected_authority: Option<Seq<u8>>,
    now: i64,
    paused: bool,
)
    ensures
        claim_rejection(
            ClaimRewards { config: Config { paused_staking: paused, ..pre.config }, ..pre },
            expected_authority,
            now,
        ) == claim_rejection(pre, expected_authority, now),
{
}

/// A claim on a record that was paid out fails and changes nothing, whoever
/// calls and whenever; for a caller who passes the checks of authority the
/// error is `AlreadyClaimed`.
pub proof fn lemma_claimed_record_rejected(
    pre: ClaimRewards,
    expected_authority: Option<Seq<u8>>,
    now: i64,
)
    requires
        pre.stake_account.claimed,
    ensures
        claim_outcome(pre, expected_authority, now).0 == pre,
        claim_outcome(pre, expected_authority, now).1 is Err,
        claim_authorized(pre, expected_authority) ==> claim_outcome(
            pre,
            expected_authority,
            now,
        ).1 == Err::<ClaimPayout, StakingError>(StakingError::AlreadyClaimed),
{
}

/// After a claim went through, every later claim on what it left fails with
/// `AlreadyClaimed` and changes nothing, at any time.
pub proof fn lemma_claim_is_terminal(
    pre: ClaimRewards,
    expected_authority: Option<Seq<u8>>,
    now: i64,
    later: i64,
)
    requires
        claim_outcome(pre, expected_authority, now).1 is Ok,
    ensures
        claim_outcome(claim_outcome(pre, expected_authority, now).0, expected_authority, later)
            == (
            claim_outcome(pre, expected_authority, now).0,
            Err::<ClaimPayout, StakingError>(StakingError::AlreadyClaimed),
        ),
{
}

/// The lock ends at the start time plus the term, inclusive. Of an unclaimed
/// record and a caller who passes the checks of authority: before that
/// moment a claim fails with `StillLocked` and changes nothing; from that
/// moment on it never fails with `StillLocked`; and at that very moment it
/// goes through, where the rewards pool covers the reward, the asset is the
/// accepted one and the reward is within what the cap leaves.
pub proof fn lemma_lock_boundary(pre: ClaimRewards, expected_authority: Option<Seq<u8>>, now: i64)
    requires
        claim_authorized(pre, expected_authority),
        !pre.stake_account.claimed,
    ensures
        now < pre.stake_account.unlock_time() ==> claim_outcome(pre, expected_authority, now) == (
            pre,
            Err::<ClaimPayout, StakingError>(StakingError::StillLocked),
        ),
        now >= pre.stake_account.unlock_time() ==> claim_rejection(pre, expected_authority, now)
            != Some(StakingError::StillLocked),
        ({
            &&& now == pre.stake_account.unlock_time()
            &&& pre.rewards_token_account.amount >= pre.stake_account.reward_amount
            &&& pre.mint.key == pre.config.stake_mint
            &&& cap_in_range(pre.config, pre.mint.decimals)
            &&& distributed_at(pre.config, now) + pre.stake_account.reward_amount
                <= cap_base_units(pre.config, pre.mint.decimals)
        }) ==> claim_outcome(pre, expected_authority, now).1 == Ok::<ClaimPayout, StakingError>(
            claim_payout(pre),
        ),
{
}

/// Two claims in one epoch whose rewards together exceed the cap: where the
/// first goes through, it counts its reward, and the second, finding the
/// configuration as the first left it and failing no earlier check, fails
/// with `MonthlyCapReached` and changes nothing.
pub proof fn lemma_cap_blocks_second_claim(
    first: ClaimRewards,
    first_authority: Option<Seq<u8>>,
    first_now: i64,
    second: ClaimRewards,
    second_authority: Option<Seq<u8>>,
    second_now: i64,
)
    requires
        claim_outcome(first, first_authority, first_now).1 is Ok,
        second.config == claim_outcome(first, first_authority, first_now).0.config,
        second.mint == first.mint,
        !epoch_elapsed(second.config, second_now),
        first.stake_account.reward_amount + second.stake_account.reward_amount > cap_base_units(
            first.config,
            first.mint.decimals,
        ),
        claim_authorized(second, second_authority),
        !second.stake_account.claimed,
        second_now >= second.stake_account.unlock_time(),
        second.rewards_token_account.amount >= second.stake_account.reward_amount,
    ensures
        claim_outcome(first, first_authority, first_now).0.config.monthly_distributed
            == distributed_at(first.config, first_now) + first.stake_account.reward_amount,
        claim_outcome(second, second_authority, second_now) == (
            second,
            Err::<ClaimPayout, StakingError>(StakingError::MonthlyCapReached),
        ),
{
}

/// The first claim after an epoch is over opens a new one: whatever the old
/// epoch had paid out, the claim goes through where it fails no earlier
/// check and its reward alone is within the cap; it leaves the reward as
/// all that the new epoch has paid out, and `now` as the epoch's start.
pub proof fn lemma_new_epoch_resets_cap(
    pre: ClaimRewards,
    expected_authority: Option<Seq<u8>>,
    now: i64,
)
    requires
        epoch_elapsed(pre.config, now),
        claim_authorized(pre, expected_authority),
        !pre.stake_account.claimed,
        now >= pre.stake_account.unlock_time(),
        pre.rewards_token_account.amount >= pre.stake_account.reward_amount,
        pre.mint.key == pre.config.stake_mint,
        cap_in_range(pre.config, pre.mint.decimals),
        pre.stake_account.reward_amount <= cap_base_units(pre.config, pre.mint.decimals),
    ensures
        claim_outcome(pre, expected_authority, now).1 == Ok::<ClaimPayout, StakingError>(
            claim_payout(pre),
        ),
        claim_outcome(pre, expected_authority, now).0.config.monthly_distributed
            == pre.stake_account.reward_amount,
        claim_outcome(pre, expected_authority, now).0.config.last_epoch_start == now,
{
}

/// The minimum stake is a hundred whole units, inclusive. Where both custody
/// accounts are owned by the vault authority, staking is not paused and the
/// asset has six decimals: a smaller deposit fails with `BelowMinimum` and
/// changes nothing; a deposit of exactly the minimum goes through, where the
/// depositor holds it in the accepted asset and the counter can advance.
pub proof fn lemma_minimum_stake_boundary(
    pre: StakeTokens,
    amount: u64,
    duration: StakingDuration,
    now: i64,
)
    requires
        pre.vault_token_account.owner == pre.vault_authority,
        pre.rewards_token_account.owner == pre.vault_authority,
        !pre.config.paused_staking,
        pre.mint.decimals == DECIMALS,
    ensures
        minimum_stake() == 100 * 1_000_000,
        amount < minimum_stake() ==> stake_outcome(pre, amount, duration, now) == (
            pre,
            Err::<StakeReceipt, StakingError>(StakingError::BelowMinimum),
        ),
        amount >= minimum_stake() ==> stake_rejection(pre, amount) != Some(
            StakingError::BelowMinimum,
        ),
        ({
            &&& amount == minimum_stake()
            &&& pre.user_token_account.amount >= amount
            &&& pre.user_token_account.mint == pre.config.stake_mint
            &&& pre.mint.key == pre.config.stake_mint
            &&& pre.stake_counter.count < u64::MAX
        }) ==> stake_outcome(pre, amount, duration, now).1 is Ok,
{
    lemma_minimum_stake();
}

/// One stake call: the accounts it finds, the amount, the term and the time.
pub type StakeCall = (StakeTokens, u64, StakingDuration, i64);

/// The counter that the `i`-th call of `calls` finds.
pub open spec fn counter_found(calls: Seq<StakeCall>, i: int) -> StakeCounter {
    calls[i].0.stake_counter
}

/// The counter that the `i`-th call of `calls` leaves.
pub open spec fn counter_left(calls: Seq<StakeCall>, i: int) -> StakeCounter {
    stake_outcome(calls[i].0, calls[i].1, calls[i].2, calls[i].3).0.stake_counter
}

/// The index of the record that the `i`-th call of `calls` writes.
pub open spec fn index_written(calls: Seq<StakeCall>, i: int) -> u64 {
    stake_outcome(calls[i].0, calls[i].1, calls[i].2, calls[i].3).0.stake_account.index
}

/// Whether `calls` are stakes of one depositor that all go through, each
/// finding the depositor's counter as the call before left it.
pub open spec fn successive_stakes(calls: Seq<StakeCall>) -> bool {
    &&& forall|i: int|
        0 <= i < calls.len() ==> (#[trigger] stake_rejection(calls[i].0, calls[i].1)).is_none()
    &&& forall|i: int|
        0 <= i && i + 1 < calls.len() ==> counter_found(calls, i + 1) == #[trigger] counter_left(
            calls,
            i,
        )
}

/// Along the successive stakes of a depositor the `i`-th record gets the
/// index that the counter had at first, plus `i`.
pub proof fn lemma_stake_indices_count_up(calls: Seq<StakeCall>, i: int)
    requires
        successive_stakes(calls),
        0 <= i < calls.len(),
    ensures
        index_written(calls, i) == counter_found(calls, 0).count + i,
        counter_left(calls, i).count == counter_found(calls, 0).count + i + 1,
    decreases i,
{
    assert(stake_rejection(calls[i].0, calls[i].1).is_none());
    if i > 0 {
        lemma_stake_indices_count_up(calls, i - 1);
        assert(counter_found(calls, (i - 1) + 1) == counter_left(calls, i - 1));
    }
}

/// Along the successive stakes of a depositor the indices rise strictly,
/// without gaps and without reuse: each is the one before plus one, and a
/// later record's index is greater than an earlier one's.
pub proof fn lemma_stake_indices_strictly_increase(calls: Seq<StakeCall>, i: int, j: int)
    requires
        successive_stakes(calls),
        0 <= i < j < calls.len(),
    ensures
        index_written(calls, i) < index_written(calls, j),
        index_written(calls, i + 1) == index_written(calls, i) + 1,
{
    lemma_stake_indices_count_up(calls, i);
    lemma_stake_indices_count_up(calls, i + 1);
    lemma_stake_indices_count_up(calls, j);
}

} // verus!
