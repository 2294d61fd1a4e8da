//! The guard in front of the yield service: what may be handed over to be
//! staked, and what may be called back.

use vstd::prelude::*;
use crate::error::TreasuryManagementError;
use crate::permissions::{authorize_authority, Caller};
use crate::state::treasury::Treasury;

verus! {

/// Why `caller` may not move `amount` between the treasury and the yield
/// service when `available` can be moved, if so. Asked in this order: the
/// caller is the authority, the amount is not zero, the amount is
/// available, the treasury is not paused.
pub open spec fn staking_refusal(
    treasury: &Treasury,
    caller: Caller,
    amount: u64,
    available: u64,
) -> Option<TreasuryManagementError> {
    if caller != Caller::TreasuryAuthority {
        Some(TreasuryManagementError::InsufficientPermissions)
    } else if amount == 0 {
        Some(TreasuryManagementError::InvalidPaymentAmount)
    } else if amount > available {
        Some(TreasuryManagementError::InsufficientFunds)
    } else if treasury.is_paused {
        Some(TreasuryManagementError::TreasuryPaused)
    } else {
        None
    }
}

/// Asks the guards of `staking_refusal`.
fn guard_staking(
    treasury: &Treasury,
    caller: &Caller,
    amount: u64,
    available: u64,
) -> (verdict: Result<(), TreasuryManagementError>)
    ensures
        match staking_refusal(treasury, *caller, amount, available) {
            Some(refusal) => verdict == Err::<(), TreasuryManagementError>(refusal),
            None => verdict is Ok,
        },
{
    match authorize_authority(caller) {
        Ok(()) => {},
        Err(refusal) => {
            return Err(refusal);
        },
    }
    if amount == 0 {
        Err(TreasuryManagementError::InvalidPaymentAmount)
    } else if amount > available {
        Err(TreasuryManagementError::InsufficientFunds)
    } else if treasury.is_paused {
        Err(TreasuryManagementError::TreasuryPaused)
    } else {
        Ok(())
    }
}

/// Decides whether `amount` of the native coin may be handed to the yield
/// service, where `available_balance` is what the treasury holds
/// unstaked.
pub fn stake_sol_for_yield(
    treasury: &Treasury,
    caller: &Caller,
    amount: u64,
    available_balance: u64,
) -> (verdict: Result<(), TreasuryManagementError>)
    ensures
        match staking_refusal(treasury, *caller, amount, available_balance) {
            Some(refusal) => verdict == Err::<(), TreasuryManagementError>(refusal),
            None => verdict is Ok,
        },
{
    guard_staking(treasury, caller, amount, available_balance)
}

/// Decides whether `amount` of the native coin may be called back from the
/// yield service, where `staked_balance` is what the treasury has staked.
pub fn unstake_sol(
    treasury: &Treasury,
    caller: &Caller,
    amount: u64,
    staked_balance: u64,
) -> (verdict: Result<(), TreasuryManagementError>)
    ensures
        match staking_refusal(treasury, *caller, amount, staked_balance) {
            Some(refusal) => verdict == Err::<(), TreasuryManagementError>(refusal),
            None => verdict is Ok,
        },
{
    guard_staking(treasury, caller, amount, staked_balance)
}

} // verus!
