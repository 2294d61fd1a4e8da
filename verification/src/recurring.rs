//! Setting up a recurring payment and claiming it when it falls due.

use vstd::prelude::*;
use crate::error::TreasuryManagementError;
use crate::payout::{authorize_payout, debited, payout_refusal, Asset, Transfer};
use crate::pubkey::Pubkey;
use crate::spending::charged;
use crate::state::recurring_payment::RecurringPayment;
use crate::state::role::Role;
use crate::state::treasury::Treasury;
use crate::state::whitelisted_recipient::WhitelistedRecipient;
use crate::streams::{guard_schedule, schedule_refusal};

verus! {

/// Sets up a payment of `amount` of the token of `token_mint` to
/// `recipient`, once per `interval`. It is active, and it first falls due
/// one interval after `now`. A paused treasury does not hinder it.
pub fn create_recurring_payment(
    treasury_key: Pubkey,
    role: &Role,
    creator: Pubkey,
    recipient: Pubkey,
    token_mint: Pubkey,
    amount: u64,
    interval: i64,
    category: u8,
    now: i64,
) -> (outcome: Result<RecurringPayment, TreasuryManagementError>)
    requires
        i64::MIN <= now + interval <= i64::MAX,
    ensures
        match schedule_refusal(role, amount) {
            Some(refusal) => outcome == Err::<RecurringPayment, TreasuryManagementError>(refusal),
            None => {
                &&& outcome == Ok::<RecurringPayment, TreasuryManagementError>(
                    (RecurringPayment {
                        treasury: treasury_key,
                        recipient,
                        token_mint,
                        amount,
                        interval,
                        next_payment_date: (now + interval) as i64,
                        is_active: true,
                        created_by: creator,
                        category,
                    }),
                )
                &&& outcome->Ok_0.wf()
            },
        },
{
    match guard_schedule(role, amount) {
        Ok(()) => {},
        Err(refusal) => {
            return Err(refusal);
        },
    }
    Ok(
        RecurringPayment {
            treasury: treasury_key,
            recipient,
            token_mint,
            amount,
            interval,
            next_payment_date: now + interval,
            is_active: true,
            created_by: creator,
            category,
        },
    )
}

/// Why the holder of `role` may not claim `payment` at `now`, if so. The
/// state of the payment is asked first: an inactive payment pays nothing,
/// and neither does one whose date has not come. Then the guards of a
/// payment are asked.
pub open spec fn recurring_refusal(
    treasury: &Treasury,
    payment: &RecurringPayment,
    role: &Role,
    entry: Option<&WhitelistedRecipient>,
    now: i64,
) -> Option<TreasuryManagementError> {
    if !payment.is_active {
        Some(TreasuryManagementError::PaymentStreamInactive)
    } else if now < payment.next_payment_date {
        Some(TreasuryManagementError::PaymentStreamNotDue)
    } else {
        payout_refusal(treasury, role, payment.recipient, entry, payment.amount as int, now)
    }
}

/// Claims `payment` for its recipient once it has fallen due: the payment
/// is recorded, the due date moves on by one interval from where it stood,
/// and the order to move the value is returned. A refused claim changes
/// nothing.
pub fn execute_recurring_payment(
    treasury: &mut Treasury,
    payment: &mut RecurringPayment,
    role: &mut Role,
    entry: Option<&WhitelistedRecipient>,
    now: i64,
) -> (outcome: Result<Transfer, TreasuryManagementError>)
    requires
        i64::MIN <= old(payment).next_payment_date + old(payment).interval <= i64::MAX,
        old(treasury).total_withdrawn + old(payment).amount <= u64::MAX,
    ensures
        match recurring_refusal(old(treasury), old(payment), old(role), entry, now) {
            Some(refusal) => {
                &&& outcome == Err::<Transfer, TreasuryManagementError>(refusal)
                &&& *final(treasury) == *old(treasury)
                &&& *final(payment) == *old(payment)
                &&& *final(role) == *old(role)
            },
            None => {
                &&& outcome == Ok::<Transfer, TreasuryManagementError>(
                    (Transfer {
                        recipient: old(payment).recipient,
                        asset: Asset::Token(old(payment).token_mint),
                        amount: old(payment).amount,
                    }),
                )
                &&& *final(payment) == old(payment).advanced()
                &&& final(payment).next_payment_date == old(payment).next_payment_date
                    + old(payment).interval
                &&& *final(treasury) == debited(old(treasury), old(payment).amount as int)
                &&& *final(role) == charged(
                    old(treasury),
                    old(role),
                    old(payment).amount as int,
                    now,
                )
            },
        },
        old(payment).wf() ==> final(payment).wf(),
        old(treasury).wf() ==> final(treasury).wf(),
        final(treasury).continues(old(treasury)),
{
    if !payment.is_active {
        return Err(TreasuryManagementError::PaymentStreamInactive);
    }
    if now < payment.next_payment_date {
        return Err(TreasuryManagementError::PaymentStreamNotDue);
    }
    let recipient: Pubkey = payment.recipient;
    let amount: u64 = payment.amount;
    match authorize_payout(treasury, role, &recipient, entry, amount, now) {
        Ok(()) => {},
        Err(refusal) => {
            return Err(refusal);
        },
    }
    payment.advance();
    Ok(Transfer { recipient, asset: Asset::Token(payment.token_mint), amount })
}

} // verus!
