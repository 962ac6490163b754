//! The closed set of failures an operation can end in.

use vstd::prelude::*;

verus! {

/// Why an operation was refused. Each variant belongs to one precondition;
/// an operation that fails changes nothing.
#[derive(Clone, Copy, Debug, PartialEq, Eq, Structural)]
pub enum StakingError {
    /// New stakes are switched off.
    StakingPaused,
    /// The depositor's token account holds another asset.
    UnauthorizedToken,
    /// The deposit is under the minimum stake.
    BelowMinimum,
    /// A quantity does not fit its integer type.
    Overflow,
    /// The term is none of the four offered.
    InvalidDuration,
    /// The record was paid out before.
    AlreadyClaimed,
    /// The term has not elapsed yet.
    StillLocked,
    /// The caller may not do this.
    Unauthorized,
    /// A custody account is not owned by the vault authority.
    InvalidVaultOwner,
    /// The payout would exceed this epoch's cap.
    MonthlyCapReached,
    /// The depositor holds less than the deposit.
    InsufficientTokenBalance,
    /// The rewards pool holds less than the reward.
    InsufficientRewards,
    /// The asset is not the accepted one.
    InvalidMint,
    /// The configuration was set before.
    AlreadyInitialized,
    /// The asset does not have six decimals.
    InvalidDecimals,
}

} // verus!
