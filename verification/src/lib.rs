//! A token-custody and staking-reward ledger: fixed-term deposits, tiered
//! time-weighted rewards, and a rolling monthly payout cap.
//!
//! Each operation takes the accounts it touches as plain values, checks its
//! preconditions in a fixed order, and commits its whole effect or none of
//! it; what it does is stated as a function from the accounts before to the
//! accounts after and the result (`initialize_outcome`, `stake_outcome`,
//! `claim_outcome`, ...). Token movements are not made here: `stake_tokens`
//! and `claim_rewards` return them as `Transfer` orders for the host, which
//! also supplies the time. What holds across calls is proved in `laws`.

pub mod accounts;
pub mod admin;
pub mod authority;
pub mod claim;
pub mod error;
pub mod identity;
pub mod laws;
pub mod reward;
pub mod scale;
pub mod stake;
pub mod state;
pub mod tier;

pub use accounts::{ClaimRewards, Initialize, SetMonthlyCap, SetPause, StakeTokens};
pub use authority::{CONFIG_SEED, STAKE_COUNTER_SEED, STAKE_SEED, VAULT_AUTH_SEED};
pub use admin::{initialize, set_monthly_cap, set_pause_staking};
pub use claim::{claim_rewards, settle_claim, ClaimPayout};
pub use error::StakingError;
pub use identity::Identity;
pub use reward::calculate_simple_reward;
pub use scale::DECIMALS;
pub use stake::{stake_tokens, StakeReceipt};
pub use state::{Config, Mint, StakeAccount, StakeCounter, TokenAccount, Transfer};
pub use tier::{StakingDuration, Tier};
