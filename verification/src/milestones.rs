//! Promising a payment for a milestone and releasing it when the milestone
//! is reached.

use vstd::prelude::*;
use crate::error::TreasuryManagementError;
use crate::payout::{authorize_payout, debited, payout_refusal, Asset, Transfer};
use crate::pubkey::Pubkey;
use crate::spending::charged;
use crate::state::milestone_payment::MilestonePayment;
use crate::state::role::Role;
use crate::state::treasury::Treasury;
use crate::state::whitelisted_recipient::WhitelistedRecipient;
use crate::streams::{guard_schedule, schedule_refusal};

verus! {

/// Promises `amount` of the token of `token_mint` to `recipient` for the
/// milestone described. The milestone is open. A paused treasury does not
/// hinder it.
pub fn create_milestone_payment(
    treasury_key: Pubkey,
    role: &Role,
    creator: Pubkey,
    recipient: Pubkey,
    token_mint: Pubkey,
    amount: u64,
    description: String,
    category: u8,
    now: i64,
) -> (outcome: Result<MilestonePayment, TreasuryManagementError>)
    ensures
        match schedule_refusal(role, amount) {
            Some(refusal) => outcome == Err::<MilestonePayment, TreasuryManagementError>(refusal),
            None => outcome == Ok::<MilestonePayment, TreasuryManagementError>(
                (MilestonePayment {
                    treasury: treasury_key,
                    recipient,
                    token_mint,
                    amount,
                    description,
                    is_completed: false,
                    created_at: now,
                    completed_at: 0,
                    created_by: creator,
                    category,
                }),
            ),
        },
{
    match guard_schedule(role, amount) {
        Ok(()) => {},
        Err(refusal) => {
            return Err(refusal);
        },
    }
    Ok(
        MilestonePayment {
            treasury: treasury_key,
            recipient,
            token_mint,
            amount,
            description,
            is_completed: false,
            created_at: now,
            completed_at: 0,
            created_by: creator,
            category,
        },
    )
}

/// Why the holder of `role` may not complete `milestone` at `now`, if so: a
/// milestone that was completed cannot be completed again; then the guards
/// of a payment are asked.
pub open spec fn completion_refusal(
    treasury: &Treasury,
    milestone: &MilestonePayment,
    role: &Role,
    entry: Option<&WhitelistedRecipient>,
    now: i64,
) -> Option<TreasuryManagementError> {
    if milestone.is_completed {
        Some(TreasuryManagementError::MilestoneAlreadyCompleted)
    } else {
        payout_refusal(treasury, role, milestone.recipient, entry, milestone.amount as int, now)
    }
}

/// Completes `milestone` and releases its payment: the payment is recorded,
/// the milestone is marked as completed at `now`, and the order to move the
/// value is returned. A refused completion changes nothing.
pub fn complete_milestone(
    treasury: &mut Treasury,
    milestone: &mut MilestonePayment,
    role: &mut Role,
    entry: Option<&WhitelistedRecipient>,
    now: i64,
) -> (outcome: Result<Transfer, TreasuryManagementError>)
    requires
        old(treasury).total_withdrawn + old(milestone).amount <= u64::MAX,
    ensures
        match completion_refusal(old(treasury), old(milestone), old(role), entry, now) {
            Some(refusal) => {
                &&& outcome == Err::<Transfer, TreasuryManagementError>(refusal)
                &&& *final(treasury) == *old(treasury)
                &&& *final(milestone) == *old(milestone)
                &&& *final(role) == *old(role)
            },
            None => {
                &&& outcome == Ok::<Transfer, TreasuryManagementError>(
                    (Transfer {
                        recipient: old(milestone).recipient,
                        asset: Asset::Token(old(milestone).token_mint),
                        amount: old(milestone).amount,
                    }),
                )
                &&& *final(milestone) == (MilestonePayment {
                    is_completed: true,
                    completed_at: now,
                    ..*old(milestone)
                })
                &&& *final(treasury) == debited(old(treasury), old(milestone).amount as int)
                &&& *final(role) == charged(
                    old(treasury),
                    old(role),
                    old(milestone).amount as int,
                    now,
                )
            },
        },
        old(treasury).wf() ==> final(treasury).wf(),
        final(treasury).continues(old(treasury)),
{
    if milestone.is_completed {
        return Err(TreasuryManagementError::MilestoneAlreadyCompleted);
    }
    let recipient: Pubkey = milestone.recipient;
    let amount: u64 = milestone.amount;
    match authorize_payout(treasury, role, &recipient, entry, amount, now) {
        Ok(()) => {},
        Err(refusal) => {
            return Err(refusal);
        },
    }
    milestone.is_completed = true;
    milestone.completed_at = now;
    Ok(Transfer { recipient, asset: Asset::Token(milestone.token_mint), amount })
}

} // verus!
