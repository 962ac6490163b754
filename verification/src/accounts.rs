//! The accounts each operation reads and writes, as plain values.

use vstd::prelude::*;
use crate::error::StakingError;
use crate::identity::Identity;
use crate::state::{Config, Mint, StakeAccount, StakeCounter, TokenAccount};

verus! {

/// Accounts of `initialize`.
#[derive(Clone, Copy, Debug, PartialEq, Eq)]
pub struct Initialize {
    pub config: Config,
    /// The signer, who becomes the admin.
    pub admin: Identity,
}

/// Accounts of `stake_tokens`.
#[derive(Clone, Copy, Debug, PartialEq, Eq)]
pub struct StakeTokens {
    /// The depositor, who signs.
    pub user: Identity,
    pub stake_counter: StakeCounter,
    /// The fresh record that the stake fills.
    pub stake_account: StakeAccount,
    pub user_token_account: TokenAccount,
    pub mint: Mint,
    /// Custody of the principals.
    pub vault_token_account: TokenAccount,
    /// Custody of the rewards pool.
    pub rewards_token_account: TokenAccount,
    pub vault_authority: Identity,
    pub config: Config,
}

/// Accounts of `claim_rewards`.
#[derive(Clone, Copy, Debug, PartialEq, Eq)]
pub struct ClaimRewards {
    /// The caller, who signs.
    pub user: Identity,
    pub stake_account: StakeAccount,
    pub user_token_account: TokenAccount,
    pub mint: Mint,
    /// Custody of the principals.
    pub vault_token_account: TokenAccount,
    /// Custody of the rewards pool.
    pub rewards_token_account: TokenAccount,
    pub vault_authority: Identity,
    pub config: Config,
}

/// Accounts of `set_pause_staking`.
#[derive(Clone, Copy, Debug, PartialEq, Eq)]
pub struct SetPause {
    pub config: Config,
    /// The signer.
    pub admin: Identity,
}

/// Accounts of `set_monthly_cap`.
#[derive(Clone, Copy, Debug, PartialEq, Eq)]
pub struct SetMonthlyCap {
    pub config: Config,
    /// The signer.
    pub admin: Identity,
}

impl StakeTokens {
    /// Whether the mint presented is the accepted asset; `InvalidMint` if not.
    pub fn validate(&self) -> (r: Result<(), StakingError>)
        ensures
            self.mint.key == self.config.stake_mint ==> r == Ok::<(), StakingError>(()),
            self.mint.key != self.config.stake_mint ==> r == Err::<(), StakingError>(
                StakingError::InvalidMint,
            ),
    {
        if self.mint.key == self.config.stake_mint {
            Ok(())
        } else {
            Err(StakingError::InvalidMint)
        }
    }

    /// Whether the vault of principals is owned by the vault authority;
    /// `InvalidVaultOwner` if not.
    pub fn validate_owner(&self) -> (r: Result<(), StakingError>)
        ensures
            self.vault_token_account.owner == self.vault_authority ==> r == Ok::<
                (),
                StakingError,
            >(()),
            self.vault_token_account.owner != self.vault_authority ==> r == Err::<
                (),
                StakingError,
            >(StakingError::InvalidVaultOwner),
    {
        if self.vault_token_account.owner != self.vault_authority {
            return Err(StakingError::InvalidVaultOwner);
        }
        Ok(())
    }
}

impl ClaimRewards {
    /// Whether the mint presented is the accepted asset; `InvalidMint` if not.
    pub fn validate(&self) -> (r: Result<(), StakingError>)
        ensures
            self.mint.key == self.config.stake_mint ==> r == Ok::<(), StakingError>(()),
            self.mint.key != self.config.stake_mint ==> r == Err::<(), StakingError>(
                StakingError::InvalidMint,
            ),
    {
        if self.mint.key == self.config.stake_mint {
            Ok(())
        } else {
            Err(StakingError::InvalidMint)
        }
    }
}

} // verus!
