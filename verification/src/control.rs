//! The control surface of a treasury: its configuration, the pause switch,
//! and the value that enters and leaves it directly.

use vstd::prelude::*;
use crate::error::TreasuryManagementError;
use crate::payout::{authorize_payout, debited, payout_refusal, Asset, Transfer};
use crate::permissions::{authorize_authority, Caller};
use crate::pubkey::{all_distinct, Pubkey};
use crate::spending::charged;
use crate::state::role::Role;
use crate::state::treasury::{percentage_in_range, threshold_in_range, Treasury};
use crate::state::whitelisted_recipient::WhitelistedRecipient;

verus! {

/// Why a configuration with these signers, this threshold and this stake
/// target is refused, if it is. The signers must be a set that can meet the
/// threshold: a list that names a signer twice is refused like a threshold
/// that is zero or above the number of signers.
pub open spec fn configuration_refusal(
    threshold: u8,
    signers: Seq<Pubkey>,
    stake_target_percentage: u8,
) -> Option<TreasuryManagementError> {
    if !signers.no_duplicates() || !threshold_in_range(threshold, signers.len()) {
        Some(TreasuryManagementError::InvalidSignatureThreshold)
    } else if !percentage_in_range(stake_target_percentage) {
        Some(TreasuryManagementError::InvalidStakePercentage)
    } else {
        None
    }
}

/// Tests a configuration before it is stored.
pub fn validate_configuration(
    threshold: u8,
    signers: &Vec<Pubkey>,
    stake_target_percentage: u8,
) -> (verdict: Result<(), TreasuryManagementError>)
    ensures
        match configuration_refusal(threshold, signers@, stake_target_percentage) {
            Some(refusal) => verdict == Err::<(), TreasuryManagementError>(refusal),
            None => verdict is Ok,
        },
{
    if !all_distinct(signers) || threshold == 0 || threshold as usize > signers.len() {
        Err(TreasuryManagementError::InvalidSignatureThreshold)
    } else if stake_target_percentage > 100 {
        Err(TreasuryManagementError::InvalidStakePercentage)
    } else {
        Ok(())
    }
}

/// Founds a treasury owned by `authority`. It starts unpaused, with nothing
/// deposited or withdrawn and the allow-list not enforced; every other field
/// is as given.
pub fn initialize_treasury(
    authority: Pubkey,
    name: String,
    signers: Vec<Pubkey>,
    threshold: u8,
    admin_limit: u64,
    treasurer_limit: u64,
    contributor_limit: u64,
    reset_period: u64,
    auto_stake: bool,
    stake_target_percentage: u8,
    now: i64,
) -> (outcome: Result<Treasury, TreasuryManagementError>)
    ensures
        match configuration_refusal(threshold, signers@, stake_target_percentage) {
            Some(refusal) => outcome == Err::<Treasury, TreasuryManagementError>(refusal),
            None => {
                &&& outcome == Ok::<Treasury, TreasuryManagementError>(
                    (Treasury {
                        name,
                        authority,
                        signers,
                        threshold,
                        is_paused: false,
                        total_deposited: 0,
                        total_withdrawn: 0,
                        created_at: now,
                        admin_limit,
                        treasurer_limit,
                        contributor_limit,
                        reset_period,
                        auto_stake,
                        stake_target_percentage,
                        whitelist_enabled: false,
                    }),
                )
                &&& outcome->Ok_0.wf()
            },
        },
{
    match validate_configuration(threshold, &signers, stake_target_percentage) {
        Ok(()) => {},
        Err(refusal) => {
            return Err(refusal);
        },
    }
    Ok(
        Treasury {
            name,
            authority,
            signers,
            threshold,
            is_paused: false,
            total_deposited: 0,
            total_withdrawn: 0,
            created_at: now,
            admin_limit,
            treasurer_limit,
            contributor_limit,
            reset_period,
            auto_stake,
            stake_target_percentage,
            whitelist_enabled: false,
        },
    )
}

/// Why `caller` may not store this configuration, if so: anyone but the
/// authority is refused first, then a configuration that is not valid.
pub open spec fn update_refusal(
    caller: Caller,
    threshold: u8,
    signers: Seq<Pubkey>,
    stake_target_percentage: u8,
) -> Option<TreasuryManagementError> {
    if caller != Caller::TreasuryAuthority {
        Some(TreasuryManagementError::InsufficientPermissions)
    } else {
        configuration_refusal(threshold, signers, stake_target_percentage)
    }
}

/// Replaces the signers, the threshold, the limits, the reset period and the
/// staking targets of a treasury. Only its authority may do so, and only
/// with a valid configuration; a refused update changes nothing. The name,
/// the authority, the totals and the switches stay as they are.
pub fn update_treasury_config(
    treasury: &mut Treasury,
    caller: &Caller,
    new_signers: Vec<Pubkey>,
    new_threshold: u8,
    admin_limit: u64,
    treasurer_limit: u64,
    contributor_limit: u64,
    reset_period: u64,
    auto_stake: bool,
    stake_target_percentage: u8,
) -> (outcome: Result<(), TreasuryManagementError>)
    ensures
        match update_refusal(*caller, new_threshold, new_signers@, stake_target_percentage) {
            Some(refusal) => {
                &&& outcome == Err::<(), TreasuryManagementError>(refusal)
                &&& *final(treasury) == *old(treasury)
            },
            None => {
                &&& outcome is Ok
                &&& *final(treasury) == (Treasury {
                    signers: new_signers,
                    threshold: new_threshold,
                    admin_limit,
                    treasurer_limit,
                    contributor_limit,
                    reset_period,
                    auto_stake,
                    stake_target_percentage,
                    ..*old(treasury)
                })
                &&& final(treasury).wf()
            },
        },
        old(treasury).wf() ==> final(treasury).wf(),
        final(treasury).continues(old(treasury)),
{
    match authorize_authority(caller) {
        Ok(()) => {},
        Err(refusal) => {
            return Err(refusal);
        },
    }
    match validate_configuration(new_threshold, &new_signers, stake_target_percentage) {
        Ok(()) => {},
        Err(refusal) => {
            return Err(refusal);
        },
    }
    treasury.signers = new_signers;
    treasury.threshold = new_threshold;
    treasury.admin_limit = admin_limit;
    treasury.treasurer_limit = treasurer_limit;
    treasury.contributor_limit = contributor_limit;
    treasury.reset_period = reset_period;
    treasury.auto_stake = auto_stake;
    treasury.stake_target_percentage = stake_target_percentage;
    Ok(())
}

/// Sets the pause switch of a treasury for its authority, and refuses
/// everyone else.
fn set_paused(
    treasury: &mut Treasury,
    caller: &Caller,
    paused: bool,
) -> (outcome: Result<(), TreasuryManagementError>)
    ensures
        if *caller == Caller::TreasuryAuthority {
            &&& outcome is Ok
            &&& *final(treasury) == (Treasury { is_paused: paused, ..*old(treasury) })
        } else {
            &&& outcome == Err::<(), TreasuryManagementError>(
                TreasuryManagementError::InsufficientPermissions,
            )
            &&& *final(treasury) == *old(treasury)
        },
{
    match authorize_authority(caller) {
        Ok(()) => {
            treasury.is_paused = paused;
            Ok(())
        },
        Err(refusal) => Err(refusal),
    }
}

/// Pauses a treasury: until it is resumed, no value moves in or out. Only
/// its authority may pause it. Pausing a paused treasury leaves it paused.
pub fn emergency_pause(
    treasury: &mut Treasury,
    caller: &Caller,
) -> (outcome: Result<(), TreasuryManagementError>)
    ensures
        if *caller == Caller::TreasuryAuthority {
            &&& outcome is Ok
            &&& *final(treasury) == (Treasury { is_paused: true, ..*old(treasury) })
        } else {
            &&& outcome == Err::<(), TreasuryManagementError>(
                TreasuryManagementError::InsufficientPermissions,
            )
            &&& *final(treasury) == *old(treasury)
        },
        old(treasury).wf() ==> final(treasury).wf(),
        final(treasury).continues(old(treasury)),
{
    set_paused(treasury, caller, true)
}

/// Resumes a paused treasury. Only its authority may do so.
pub fn resume_operations(
    treasury: &mut Treasury,
    caller: &Caller,
) -> (outcome: Result<(), TreasuryManagementError>)
    ensures
        if *caller == Caller::TreasuryAuthority {
            &&& outcome is Ok
            &&& *final(treasury) == (Treasury { is_paused: false, ..*old(treasury) })
        } else {
            &&& outcome == Err::<(), TreasuryManagementError>(
                TreasuryManagementError::InsufficientPermissions,
            )
            &&& *final(treasury) == *old(treasury)
        },
        old(treasury).wf() ==> final(treasury).wf(),
        final(treasury).continues(old(treasury)),
{
    set_paused(treasury, caller, false)
}

/// Why a deposit of `amount` is refused, if it is: an empty deposit first,
/// then any deposit into a paused treasury.
pub open spec fn deposit_refusal(
    treasury: &Treasury,
    amount: u64,
) -> Option<TreasuryManagementError> {
    if amount == 0 {
        Some(TreasuryManagementError::InvalidPaymentAmount)
    } else if treasury.is_paused {
        Some(TreasuryManagementError::TreasuryPaused)
    } else {
        None
    }
}

/// The treasury after `amount` has been paid in.
pub open spec fn credited(treasury: &Treasury, amount: u64) -> Treasury {
    Treasury { total_deposited: (treasury.total_deposited + amount) as u64, ..*treasury }
}

/// Records a deposit in the total that the treasury has received.
fn record_deposit(
    treasury: &mut Treasury,
    amount: u64,
) -> (outcome: Result<(), TreasuryManagementError>)
    requires
        old(treasury).total_deposited + amount <= u64::MAX,
    ensures
        match deposit_refusal(old(treasury), amount) {
            Some(refusal) => {
                &&& outcome == Err::<(), TreasuryManagementError>(refusal)
                &&& *final(treasury) == *old(treasury)
            },
            None => {
                &&& outcome is Ok
                &&& *final(treasury) == credited(old(treasury), amount)
            },
        },
{
    if amount == 0 {
        return Err(TreasuryManagementError::InvalidPaymentAmount);
    }
    if treasury.is_paused {
        return Err(TreasuryManagementError::TreasuryPaused);
    }
    treasury.total_deposited = treasury.total_deposited + amount;
    Ok(())
}

/// Accepts a deposit of `amount` of the native coin. Anyone may deposit a
/// positive amount while the treasury is not paused.
pub fn deposit_sol(
    treasury: &mut Treasury,
    amount: u64,
) -> (outcome: Result<(), TreasuryManagementError>)
    requires
        old(treasury).total_deposited + amount <= u64::MAX,
    ensures
        match deposit_refusal(old(treasury), amount) {
            Some(refusal) => {
                &&& outcome == Err::<(), TreasuryManagementError>(refusal)
                &&& *final(treasury) == *old(treasury)
            },
            None => {
                &&& outcome is Ok
                &&& *final(treasury) == credited(old(treasury), amount)
            },
        },
        old(treasury).wf() ==> final(treasury).wf(),
        final(treasury).continues(old(treasury)),
{
    record_deposit(treasury, amount)
}

/// Accepts a deposit of `amount` of a token. Anyone may deposit a positive
/// amount while the treasury is not paused.
pub fn deposit_tokens(
    treasury: &mut Treasury,
    amount: u64,
) -> (outcome: Result<(), TreasuryManagementError>)
    requires
        old(treasury).total_deposited + amount <= u64::MAX,
    ensures
        match deposit_refusal(old(treasury), amount) {
            Some(refusal) => {
                &&& outcome == Err::<(), TreasuryManagementError>(refusal)
                &&& *final(treasury) == *old(treasury)
            },
            None => {
                &&& outcome is Ok
                &&& *final(treasury) == credited(old(treasury), amount)
            },
        },
        old(treasury).wf() ==> final(treasury).wf(),
        final(treasury).continues(old(treasury)),
{
    record_deposit(treasury, amount)
}

/// Decides a withdrawal of `amount` of `asset` and records it.
fn withdraw(
    treasury: &mut Treasury,
    role: &mut Role,
    asset: Asset,
    recipient: Pubkey,
    entry: Option<&WhitelistedRecipient>,
    amount: u64,
    now: i64,
) -> (outcome: Result<Transfer, TreasuryManagementError>)
    requires
        old(treasury).total_withdrawn + amount <= u64::MAX,
    ensures
        match payout_refusal(old(treasury), old(role), recipient, entry, amount as int, now) {
            Some(refusal) => {
                &&& outcome == Err::<Transfer, TreasuryManagementError>(refusal)
                &&& *final(treasury) == *old(treasury)
                &&& *final(role) == *old(role)
            },
            None => {
                &&& outcome == Ok::<Transfer, TreasuryManagementError>(
                    (Transfer { recipient, asset, amount }),
                )
                &&& *final(treasury) == debited(old(treasury), amount as int)
                &&& *final(role) == charged(old(treasury), old(role), amount as int, now)
            },
        },
        old(treasury).wf() ==> final(treasury).wf(),
        final(treasury).continues(old(treasury)),
{
    match authorize_payout(treasury, role, &recipient, entry, amount, now) {
        Ok(()) => Ok(Transfer { recipient, asset, amount }),
        Err(refusal) => Err(refusal),
    }
}

/// Withdraws `amount` of the native coin to `recipient` for the holder of
/// `role`, where `entry` is what the allow-list holds for the recipient. On
/// success the payment is recorded and the order to move the value is
/// returned; a refused withdrawal changes nothing.
pub fn withdraw_sol(
    treasury: &mut Treasury,
    role: &mut Role,
    recipient: Pubkey,
    entry: Option<&WhitelistedRecipient>,
    amount: u64,
    now: i64,
) -> (outcome: Result<Transfer, TreasuryManagementError>)
    requires
        old(treasury).total_withdrawn + amount <= u64::MAX,
    ensures
        match payout_refusal(old(treasury), old(role), recipient, entry, amount as int, now) {
            Some(refusal) => {
                &&& outcome == Err::<Transfer, TreasuryManagementError>(refusal)
                &&& *final(treasury) == *old(treasury)
                &&& *final(role) == *old(role)
            },
            None => {
                &&& outcome == Ok::<Transfer, TreasuryManagementError>(
                    (Transfer { recipient, asset: Asset::Native, amount }),
                )
                &&& *final(treasury) == debited(old(treasury), amount as int)
                &&& *final(role) == charged(old(treasury), old(role), amount as int, now)
            },
        },
        old(treasury).wf() ==> final(treasury).wf(),
        final(treasury).continues(old(treasury)),
{
    withdraw(treasury, role, Asset::Native, recipient, entry, amount, now)
}

/// Withdraws `amount` of the token of `token_mint` to `recipient` for the
/// holder of `role`, under the same guards as a withdrawal of the native
/// coin.
pub fn withdraw_tokens(
    treasury: &mut Treasury,
    role: &mut Role,
    token_mint: Pubkey,
    recipient: Pubkey,
    entry: Option<&WhitelistedRecipient>,
    amount: u64,
    now: i64,
) -> (outcome: Result<Transfer, TreasuryManagementError>)
    requires
        old(treasury).total_withdrawn + amount <= u64::MAX,
    ensures
        match payout_refusal(old(treasury), old(role), recipient, entry, amount as int, now) {
            Some(refusal) => {
                &&& outcome == Err::<Transfer, TreasuryManagementError>(refusal)
                &&& *final(treasury) == *old(treasury)
                &&& *final(role) == *old(role)
            },
            None => {
                &&& outcome == Ok::<Transfer, TreasuryManagementError>(
                    (Transfer { recipient, asset: Asset::Token(token_mint), amount }),
                )
                &&& *final(treasury) == debited(old(treasury), amount as int)
                &&& *final(role) == charged(old(treasury), old(role), amount as int, now)
            },
        },
        old(treasury).wf() ==> final(treasury).wf(),
        final(treasury).continues(old(treasury)),
{
    withdraw(treasury, role, Asset::Token(token_mint), recipient, entry, amount, now)
}

} // verus!
