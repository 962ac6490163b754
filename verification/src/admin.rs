//! Setting up and administering the configuration.

use vstd::prelude::*;
use crate::accounts::{Initialize, SetMonthlyCap, SetPause};
use crate::error::StakingError;
use crate::identity::Identity;
use crate::state::Config;

verus! {

/// The accounts after `initialize`, and what it returns: where no admin was
/// set before, every field of the configuration set, the signer as admin,
/// nothing paid out yet and the first epoch beginning at `now`; else the
/// accounts as they were and `AlreadyInitialized`.
pub open spec fn initialize_outcome(
    pre: Initialize,
    stake_mint: Identity,
    monthly_cap: u64,
    now: i64,
) -> (Initialize, Result<(), StakingError>) {
    if pre.config.admin.is_unset() {
        (
            Initialize {
                config: Config {
                    admin: pre.admin,
                    stake_mint,
                    monthly_cap,
                    paused_staking: false,
                    monthly_distributed: 0,
                    last_epoch_start: now,
                },
                ..pre
            },
            Ok(()),
        )
    } else {
        (pre, Err(StakingError::AlreadyInitialized))
    }
}

/// Sets the configuration, once. Succeeds exactly when no admin was set
/// before; otherwise fails with `AlreadyInitialized` and changes nothing.
pub fn initialize(
    accounts: &mut Initialize,
    stake_mint: Identity,
    monthly_cap: u64,
    now: i64,
) -> (r: Result<(), StakingError>)
    ensures
        (*final(accounts), r) == initialize_outcome(*old(accounts), stake_mint, monthly_cap, now),
{
    if !accounts.config.admin.is_unset() {
        return Err(StakingError::AlreadyInitialized);
    }
    accounts.config.admin = accounts.admin;
    accounts.config.stake_mint = stake_mint;
    accounts.config.monthly_cap = monthly_cap;
    accounts.config.paused_staking = false;
    accounts.config.monthly_distributed = 0;
    accounts.config.last_epoch_start = now;
    Ok(())
}

/// The accounts after `set_pause_staking`, and what it returns: where the
/// signer is the admin, the flag set and nothing else touched; else the
/// accounts as they were and `Unauthorized`.
pub open spec fn pause_outcome(pre: SetPause, paused: bool) -> (SetPause, Result<(), StakingError>) {
    if pre.admin == pre.config.admin {
        (SetPause { config: Config { paused_staking: paused, ..pre.config }, ..pre }, Ok(()))
    } else {
        (pre, Err(StakingError::Unauthorized))
    }
}

/// Switches new stakes off or on. Succeeds exactly when the signer is the
/// admin; otherwise fails with `Unauthorized` and changes nothing.
pub fn set_pause_staking(accounts: &mut SetPause, paused: bool) -> (r: Result<(), StakingError>)
    ensures
        (*final(accounts), r) == pause_outcome(*old(accounts), paused),
{
    if !(accounts.admin == accounts.config.admin) {
        return Err(StakingError::Unauthorized);
    }
    accounts.config.paused_staking = paused;
    Ok(())
}

/// The accounts after `set_monthly_cap`, and what it returns: where the
/// signer is the admin, the cap replaced and nothing else touched; else the
/// accounts as they were and `Unauthorized`.
pub open spec fn cap_outcome(pre: SetMonthlyCap, new_monthly_cap: u64) -> (
    SetMonthlyCap,
    Result<(), StakingError>,
) {
    if pre.admin == pre.config.admin {
        (
            SetMonthlyCap { config: Config { monthly_cap: new_monthly_cap, ..pre.config }, ..pre },
            Ok(()),
        )
    } else {
        (pre, Err(StakingError::Unauthorized))
    }
}

/// Replaces the cap on an epoch's rewards, in whole units. Succeeds exactly
/// when the signer is the admin; otherwise fails with `Unauthorized` and
/// changes nothing. The new value is not checked.
pub fn set_monthly_cap(accounts: &mut SetMonthlyCap, new_monthly_cap: u64) -> (r: Result<
    (),
    StakingError,
>)
    ensures
        (*final(accounts), r) == cap_outcome(*old(accounts), new_monthly_cap),
{
    if !(accounts.admin == accounts.config.admin) {
        return Err(StakingError::Unauthorized);
    }
    accounts.config.monthly_cap = new_monthly_cap;
    Ok(())
}

} // verus!
