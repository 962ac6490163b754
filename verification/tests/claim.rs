use anchor_lang::prelude::Pubkey;
use skorstaking::{claim_rewards, settle_claim, ClaimPayout};
use skorstaking::{
    ClaimRewards, Config, Identity, Mint, StakeAccount, StakingError, Tier, TokenAccount,
    Transfer, VAULT_AUTH_SEED,
};

fn who(tag: u8) -> Identity {
    Identity::new_from_array([tag; 32])
}

const USER: u8 = 1;
const ASSET: u8 = 2;
const AUTHORITY: u8 = 3;
const USER_TOKENS: u8 = 4;
const VAULT: u8 = 5;
const REWARDS: u8 = 6;
const ADMIN: u8 = 7;

const START: i64 = 1_700_000_000;
const TERM: i64 = 5_184_000;
const UNLOCK: i64 = 1_705_184_000;
const EPOCH: i64 = 2_592_000;

/// A claimable record of `reward` base units, under a cap of `cap` whole
/// units, in an epoch that began at `epoch_start`.
fn claim_accounts(reward: u64, cap: u64, distributed: u64, epoch_start: i64) -> ClaimRewards {
    ClaimRewards {
        user: who(USER),
        stake_account: StakeAccount {
            staker: who(USER),
            deposit_amount: 100_000_000,
            reward_amount: reward,
            start_time: START,
            duration: TERM,
            claimed: false,
            tier: Tier::Bronze,
            index: 0,
        },
        user_token_account: TokenAccount {
            key: who(USER_TOKENS),
            mint: who(ASSET),
            owner: who(USER),
            amount: 0,
        },
        mint: Mint { key: who(ASSET), decimals: 6 },
        vault_token_account: TokenAccount {
            key: who(VAULT),
            mint: who(ASSET),
            owner: who(AUTHORITY),
            amount: 100_000_000,
        },
        rewards_token_account: TokenAccount {
            key: who(REWARDS),
            mint: who(ASSET),
            owner: who(AUTHORITY),
            amount: 10_000_000,
        },
        vault_authority: who(AUTHORITY),
        config: Config {
            admin: who(ADMIN),
            stake_mint: who(ASSET),
            monthly_cap: cap,
            paused_staking: false,
            monthly_distributed: distributed,
            last_epoch_start: epoch_start,
        },
    }
}

fn settle(accounts: &mut ClaimRewards, now: i64) -> Result<ClaimPayout, StakingError> {
    settle_claim(accounts, Some(who(AUTHORITY)), now)
}

fn assert_refused(mut accounts: ClaimRewards, now: i64, expected: StakingError) {
    let before = accounts;
    assert_eq!(settle(&mut accounts, now), Err(expected));
    assert_eq!(accounts, before);
}

fn expected_payout(reward: u64) -> ClaimPayout {
    ClaimPayout {
        principal: Transfer {
            from: who(VAULT),
            mint: who(ASSET),
            to: who(USER_TOKENS),
            authority: who(AUTHORITY),
            amount: 100_000_000,
            decimals: 6,
        },
        reward: Transfer {
            from: who(REWARDS),
            mint: who(ASSET),
            to: who(USER_TOKENS),
            authority: who(AUTHORITY),
            amount: reward,
            decimals: 6,
        },
    }
}

#[test]
fn claim_at_exactly_the_unlock_time_succeeds() {
    let mut accounts = claim_accounts(657_534, 5, 100, UNLOCK - 10);
    let before = accounts;
    assert_eq!(settle(&mut accounts, UNLOCK), Ok(expected_payout(657_534)));
    assert!(accounts.stake_account.claimed);
    assert_eq!(
        accounts.stake_account,
        StakeAccount { claimed: true, ..before.stake_account }
    );
    assert_eq!(
        accounts.config,
        Config { monthly_distributed: 657_634, ..before.config }
    );
    assert_eq!(accounts.user_token_account, before.user_token_account);
    assert_eq!(accounts.vault_token_account, before.vault_token_account);
    assert_eq!(accounts.rewards_token_account, before.rewards_token_account);
}

#[test]
fn claim_before_the_unlock_time_is_still_locked() {
    assert_refused(claim_accounts(657_534, 5, 0, START), UNLOCK - 1, StakingError::StillLocked);
    assert_refused(claim_accounts(657_534, 5, 0, START), START, StakingError::StillLocked);
    assert_refused(claim_accounts(657_534, 5, 0, START), i64::MIN, StakingError::StillLocked);
}

#[test]
fn claim_lock_is_compared_without_wrapping() {
    let mut accounts = claim_accounts(1, 5, 0, 0);
    accounts.stake_account.start_time = i64::MAX;
    accounts.stake_account.duration = 31_536_000;
    assert_refused(accounts, i64::MAX, StakingError::StillLocked);
    accounts.stake_account.duration = 0;
    assert!(settle(&mut accounts, i64::MAX).is_ok());
}

#[test]
fn claim_twice_is_already_claimed() {
    let mut accounts = claim_accounts(657_534, 5, 0, UNLOCK);
    assert!(settle(&mut accounts, UNLOCK).is_ok());
    let after_first = accounts;
    for later in [UNLOCK, UNLOCK + 1, UNLOCK + EPOCH + 1, i64::MAX, 0, i64::MIN] {
        assert_eq!(settle(&mut accounts, later), Err(StakingError::AlreadyClaimed));
        assert_eq!(accounts, after_first);
    }
}

#[test]
fn claim_by_other_than_the_staker_is_unauthorized() {
    let mut accounts = claim_accounts(657_534, 5, 0, UNLOCK);
    accounts.user = who(99);
    assert_refused(accounts, UNLOCK, StakingError::Unauthorized);
    accounts.stake_account.claimed = true;
    assert_refused(accounts, UNLOCK, StakingError::Unauthorized);
}

#[test]
fn claim_from_custody_of_other_owner_is_rejected() {
    let mut accounts = claim_accounts(657_534, 5, 0, UNLOCK);
    accounts.vault_token_account.owner = who(99);
    assert_refused(accounts, UNLOCK, StakingError::InvalidVaultOwner);
    let mut accounts = claim_accounts(657_534, 5, 0, UNLOCK);
    accounts.rewards_token_account.owner = who(99);
    assert_refused(accounts, UNLOCK, StakingError::InvalidVaultOwner);
}

#[test]
fn claim_with_other_vault_authority_is_unauthorized() {
    let mut accounts = claim_accounts(657_534, 5, 0, UNLOCK);
    let before = accounts;
    assert_eq!(
        settle_claim(&mut accounts, Some(who(99)), UNLOCK),
        Err(StakingError::Unauthorized)
    );
    assert_eq!(
        settle_claim(&mut accounts, None, UNLOCK),
        Err(StakingError::Unauthorized)
    );
    assert_eq!(accounts, before);
}

#[test]
fn claim_beyond_the_rewards_pool_is_rejected() {
    let mut accounts = claim_accounts(657_534, 5, 0, UNLOCK);
    accounts.rewards_token_account.amount = 657_533;
    assert_refused(accounts, UNLOCK, StakingError::InsufficientRewards);
    accounts.rewards_token_account.amount = 657_534;
    assert!(settle(&mut accounts, UNLOCK).is_ok());
}

#[test]
fn claim_with_other_mint_is_rejected() {
    let mut accounts = claim_accounts(657_534, 5, 0, UNLOCK);
    accounts.mint.key = who(99);
    assert_refused(accounts, UNLOCK, StakingError::InvalidMint);
    assert_eq!(accounts.validate(), Err(StakingError::InvalidMint));
    assert_eq!(claim_accounts(1, 1, 0, 0).validate(), Ok(()));
}

#[test]
fn claim_under_cap_out_of_range_is_overflow() {
    assert_refused(claim_accounts(1, u64::MAX, 0, UNLOCK), UNLOCK, StakingError::Overflow);
    assert_refused(
        claim_accounts(1, 18_446_744_073_710, 0, UNLOCK),
        UNLOCK,
        StakingError::Overflow,
    );
    let mut accounts = claim_accounts(1, 18_446_744_073_709, 0, UNLOCK);
    assert!(settle(&mut accounts, UNLOCK).is_ok());

    let mut accounts = claim_accounts(0, 0, 0, UNLOCK);
    accounts.mint.decimals = 20;
    assert_refused(accounts, UNLOCK, StakingError::Overflow);
    accounts.mint.decimals = 19;
    assert!(settle(&mut accounts, UNLOCK).is_ok());
}

#[test]
fn claim_cap_is_inclusive() {
    let mut accounts = claim_accounts(400_000, 1, 600_000, UNLOCK);
    assert!(settle(&mut accounts, UNLOCK).is_ok());
    assert_eq!(accounts.config.monthly_distributed, 1_000_000);
    assert_refused(
        claim_accounts(400_001, 1, 600_000, UNLOCK),
        UNLOCK,
        StakingError::MonthlyCapReached,
    );
}

#[test]
fn claim_sum_beyond_64_bits_is_cap_reached() {
    let mut accounts = claim_accounts(u64::MAX, 18_446_744_073_709, 1, UNLOCK);
    accounts.rewards_token_account.amount = u64::MAX;
    assert_refused(accounts, UNLOCK, StakingError::MonthlyCapReached);
}

#[test]
fn second_claim_over_the_cap_fails_and_keeps_the_first() {
    let mut first = claim_accounts(600_000, 1, 0, UNLOCK);
    assert_eq!(settle(&mut first, UNLOCK + 5), Ok(expected_payout(600_000)));
    assert_eq!(first.config.monthly_distributed, 600_000);
    assert_eq!(first.config.last_epoch_start, UNLOCK);

    let mut second = claim_accounts(600_000, 1, 0, UNLOCK);
    second.stake_account.index = 1;
    second.config = first.config;
    let before = second;
    assert_eq!(settle(&mut second, UNLOCK + 10), Err(StakingError::MonthlyCapReached));
    assert_eq!(second, before);
    assert_eq!(second.config, first.config);
    assert!(!second.stake_account.claimed);
    assert!(first.stake_account.claimed);
}

#[test]
fn claim_after_the_epoch_opens_a_new_one() {
    let mut first = claim_accounts(600_000, 1, 0, UNLOCK);
    assert!(settle(&mut first, UNLOCK + 5).is_ok());

    let mut second = claim_accounts(600_000, 1, 0, UNLOCK);
    second.config = first.config;
    // The boundary itself still belongs to the old epoch.
    assert_refused(second, UNLOCK + EPOCH, StakingError::MonthlyCapReached);
    assert_eq!(settle(&mut second, UNLOCK + EPOCH + 1), Ok(expected_payout(600_000)));
    assert_eq!(second.config.monthly_distributed, 600_000);
    assert_eq!(second.config.last_epoch_start, UNLOCK + EPOCH + 1);
    assert!(second.stake_account.claimed);
}

#[test]
fn refused_claim_does_not_open_a_new_epoch() {
    let accounts = claim_accounts(1_000_001, 1, 999, START);
    assert_refused(accounts, UNLOCK + EPOCH + 1, StakingError::MonthlyCapReached);
    let mut locked = claim_accounts(1, 1, 999, i64::MIN);
    locked.stake_account.start_time = i64::MAX;
    assert_refused(locked, 0, StakingError::StillLocked);
}

#[test]
fn claim_epoch_is_compared_without_wrapping() {
    let mut accounts = claim_accounts(400_000, 1, 700_000, i64::MAX);
    accounts.stake_account.start_time = 0;
    accounts.stake_account.duration = 0;
    assert_refused(accounts, i64::MAX, StakingError::MonthlyCapReached);
}

#[test]
fn claim_checks_come_in_order() {
    let mut accounts = claim_accounts(2_000_000, u64::MAX, 0, UNLOCK);
    accounts.user = who(90);
    accounts.vault_token_account.owner = who(91);
    accounts.stake_account.claimed = true;
    accounts.rewards_token_account.amount = 0;
    accounts.mint.key = who(92);
    let now = UNLOCK - 1;
    assert_refused(accounts, now, StakingError::Unauthorized);
    accounts.user = who(USER);
    assert_refused(accounts, now, StakingError::InvalidVaultOwner);
    accounts.vault_token_account.owner = who(AUTHORITY);
    let before = accounts;
    assert_eq!(
        settle_claim(&mut accounts, Some(who(93)), now),
        Err(StakingError::Unauthorized)
    );
    assert_eq!(accounts, before);
    assert_refused(accounts, now, StakingError::AlreadyClaimed);
    accounts.stake_account.claimed = false;
    assert_refused(accounts, now, StakingError::StillLocked);
    let now = UNLOCK;
    assert_refused(accounts, now, StakingError::InsufficientRewards);
    accounts.rewards_token_account.amount = 2_000_000;
    assert_refused(accounts, now, StakingError::InvalidMint);
    accounts.mint.key = who(ASSET);
    assert_refused(accounts, now, StakingError::Overflow);
    accounts.config.monthly_cap = 1;
    assert_refused(accounts, now, StakingError::MonthlyCapReached);
    accounts.config.monthly_cap = 2;
    assert!(settle(&mut accounts, now).is_ok());
}

#[test]
fn claim_derives_the_vault_authority_from_the_program() {
    let program = Pubkey::new_from_array([9u8; 32]);
    let (derived, _bump) = Pubkey::find_program_address(&[VAULT_AUTH_SEED.as_bytes()], &program);
    let authority = Identity::new_from_array(derived.to_bytes());
    let program_id = Identity::new_from_array(program.to_bytes());
    assert_ne!(authority, program_id);

    let mut accounts = claim_accounts(657_534, 5, 0, UNLOCK);
    accounts.vault_authority = authority;
    accounts.vault_token_account.owner = authority;
    accounts.rewards_token_account.owner = authority;
    let payout = claim_rewards(&mut accounts, &program_id, UNLOCK).unwrap();
    assert_eq!(payout.principal.authority, authority);
    assert_eq!(payout.reward.authority, authority);
    assert_eq!(payout.reward.amount, 657_534);
    assert!(accounts.stake_account.claimed);
}

#[test]
fn claim_under_another_program_is_unauthorized() {
    let program = Pubkey::new_from_array([9u8; 32]);
    let (derived, _bump) = Pubkey::find_program_address(&[VAULT_AUTH_SEED.as_bytes()], &program);
    let authority = Identity::new_from_array(derived.to_bytes());

    let mut accounts = claim_accounts(657_534, 5, 0, UNLOCK);
    accounts.vault_authority = authority;
    accounts.vault_token_account.owner = authority;
    accounts.rewards_token_account.owner = authority;
    let before = accounts;
    assert_eq!(
        claim_rewards(&mut accounts, &who(10), UNLOCK),
        Err(StakingError::Unauthorized)
    );
    assert_eq!(accounts, before);
}

#[test]
fn claim_with_the_program_id_as_authority_is_unauthorized() {
    // The derived address is never the program id handed in.
    let mut accounts = claim_accounts(657_534, 5, 0, UNLOCK);
    accounts.vault_authority = who(9);
    accounts.vault_token_account.owner = who(9);
    accounts.rewards_token_account.owner = who(9);
    let before = accounts;
    assert_eq!(
        claim_rewards(&mut accounts, &who(9), UNLOCK),
        Err(StakingError::Unauthorized)
    );
    assert_eq!(accounts, before);
}
