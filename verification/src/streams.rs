//! Opening a payment stream, claiming what it has accrued, and closing it.

use vstd::prelude::*;
use vstd::arithmetic::mul::lemma_mul_inequality;
use crate::error::TreasuryManagementError;
use crate::payout::{authorize_payout, debited, payout_refusal, Asset, Transfer};
use crate::periods::{
    count_whole_periods, lemma_whole_periods_bounds, lemma_whole_periods_nonnegative,
    whole_periods,
};
use crate::permissions::{require_capability, Capability};
use crate::pubkey::Pubkey;
use crate::spending::charged;
use crate::state::payment_stream::{schedule_total, PaymentStream};
use crate::state::role::Role;
use crate::state::treasury::Treasury;
use crate::state::whitelisted_recipient::WhitelistedRecipient;

verus! {

/// Whether a stream with these terms can be recorded: all that it pays from
/// start to end fits in 64 bits.
pub open spec fn schedule_is_payable(
    amount_per_period: u64,
    period_duration: i64,
    start_time: i64,
    end_time: i64,
) -> bool {
    schedule_total(amount_per_period, period_duration, start_time, end_time) <= u64::MAX
}

/// Tests whether a stream with these terms can be recorded.
pub fn schedule_fits(
    amount_per_period: u64,
    period_duration: i64,
    start_time: i64,
    end_time: i64,
) -> (fits: bool)
    ensures
        fits == schedule_is_payable(amount_per_period, period_duration, start_time, end_time),
{
    if period_duration <= 0 {
        assert(whole_periods(end_time - start_time, period_duration as int) * amount_per_period
            == 0);
        return true;
    }
    let periods: u128 = count_whole_periods(
        end_time as i128 - start_time as i128,
        period_duration,
    );
    proof {
        lemma_whole_periods_bounds(end_time - start_time, period_duration as int);
        lemma_mul_inequality(periods as int, u64::MAX as int, amount_per_period as int);
        assert(u64::MAX * amount_per_period <= u64::MAX * u64::MAX) by (nonlinear_arith)
            requires
                0 <= amount_per_period <= u64::MAX,
        ;
    }
    let total: u128 = periods * (amount_per_period as u128);
    total <= u64::MAX as u128
}

/// Why the holder of `role` may not open a scheduled payment of `amount`,
/// if so: a role without the capability to create streams is refused
/// first, then an empty amount.
pub open spec fn schedule_refusal(role: &Role, amount: u64) -> Option<TreasuryManagementError> {
    if !role.holds(Capability::CreateStreams) {
        Some(TreasuryManagementError::InsufficientPermissions)
    } else if amount == 0 {
        Some(TreasuryManagementError::InvalidPaymentAmount)
    } else {
        None
    }
}

/// Asks the guards of `schedule_refusal`.
pub fn guard_schedule(role: &Role, amount: u64) -> (verdict: Result<(), TreasuryManagementError>)
    ensures
        match schedule_refusal(role, amount) {
            Some(refusal) => verdict == Err::<(), TreasuryManagementError>(refusal),
            None => verdict is Ok,
        },
{
    match require_capability(role, Capability::CreateStreams) {
        Ok(()) => {},
        Err(refusal) => {
            return Err(refusal);
        },
    }
    if amount == 0 {
        Err(TreasuryManagementError::InvalidPaymentAmount)
    } else {
        Ok(())
    }
}

/// Opens a stream of `amount_per_period` of the token of `token_mint` to
/// `recipient` for every whole period between `start_time` and `end_time`.
/// The stream is active and nothing of it has been paid. A stream that ends
/// before its first period is over, or whose periods have no length, is
/// opened too and never pays. A paused treasury does not hinder it.
pub fn create_payment_stream(
    treasury_key: Pubkey,
    role: &Role,
    creator: Pubkey,
    recipient: Pubkey,
    token_mint: Pubkey,
    amount_per_period: u64,
    period_duration: i64,
    start_time: i64,
    end_time: i64,
    category: u8,
) -> (outcome: Result<PaymentStream, TreasuryManagementError>)
    requires
        schedule_is_payable(amount_per_period, period_duration, start_time, end_time),
    ensures
        match schedule_refusal(role, amount_per_period) {
            Some(refusal) => outcome == Err::<PaymentStream, TreasuryManagementError>(refusal),
            None => {
                &&& outcome == Ok::<PaymentStream, TreasuryManagementError>(
                    (PaymentStream {
                        treasury: treasury_key,
                        recipient,
                        token_mint,
                        amount_per_period,
                        period_duration,
                        start_time,
                        end_time,
                        last_payment_time: start_time,
                        total_paid: 0,
                        is_active: true,
                        category,
                        created_by: creator,
                    }),
                )
                &&& outcome->Ok_0.wf()
            },
        },
{
    match guard_schedule(role, amount_per_period) {
        Ok(()) => {},
        Err(refusal) => {
            return Err(refusal);
        },
    }
    let stream = PaymentStream {
        treasury: treasury_key,
        recipient,
        token_mint,
        amount_per_period,
        period_duration,
        start_time,
        end_time,
        last_payment_time: start_time,
        total_paid: 0,
        is_active: true,
        category,
        created_by: creator,
    };
    proof {
        assert(stream.paid_periods() == 0);
        assert(stream.paid_periods() * stream.period_duration == 0);
        assert(stream.paid_periods() * stream.amount_per_period == 0);
        lemma_whole_periods_nonnegative(end_time - start_time, period_duration as int);
    }
    Ok(stream)
}

/// Why the holder of `role` may not claim what `stream` has accrued at
/// `now`, if so. The state of the stream is asked first: an inactive stream
/// pays nothing, and neither does one that has not accrued a whole period
/// since it last paid. Then the guards of a payment are asked.
pub open spec fn stream_refusal(
    treasury: &Treasury,
    stream: &PaymentStream,
    role: &Role,
    entry: Option<&WhitelistedRecipient>,
    now: i64,
) -> Option<TreasuryManagementError> {
    if !stream.is_active {
        Some(TreasuryManagementError::PaymentStreamInactive)
    } else if stream.due(now) <= 0 {
        Some(TreasuryManagementError::PaymentStreamNotDue)
    } else {
        payout_refusal(treasury, role, stream.recipient, entry, stream.due(now), now)
    }
}

/// Claims all that `stream` has accrued at `now` for its recipient: the
/// payment is recorded, the paid periods are consumed, and the order to
/// move the value is returned. A refused claim changes nothing.
pub fn execute_stream_payment(
    treasury: &mut Treasury,
    stream: &mut PaymentStream,
    role: &mut Role,
    entry: Option<&WhitelistedRecipient>,
    now: i64,
) -> (outcome: Result<Transfer, TreasuryManagementError>)
    requires
        old(stream).wf(),
        old(treasury).total_withdrawn + old(stream).due(now) <= u64::MAX,
    ensures
        match stream_refusal(old(treasury), old(stream), old(role), entry, now) {
            Some(refusal) => {
                &&& outcome == Err::<Transfer, TreasuryManagementError>(refusal)
                &&& *final(treasury) == *old(treasury)
                &&& *final(stream) == *old(stream)
                &&& *final(role) == *old(role)
            },
            None => {
                &&& outcome == Ok::<Transfer, TreasuryManagementError>(
                    (Transfer {
                        recipient: old(stream).recipient,
                        asset: Asset::Token(old(stream).token_mint),
                        amount: old(stream).due(now) as u64,
                    }),
                )
                &&& *final(stream) == old(stream).advanced(now)
                &&& *final(treasury) == debited(old(treasury), old(stream).due(now))
                &&& *final(role) == charged(old(treasury), old(role), old(stream).due(now), now)
            },
        },
        final(stream).wf(),
        old(treasury).wf() ==> final(treasury).wf(),
        final(treasury).continues(old(treasury)),
{
    if !stream.is_active {
        return Err(TreasuryManagementError::PaymentStreamInactive);
    }
    let amount: u64 = stream.due_amount(now);
    if amount == 0 {
        return Err(TreasuryManagementError::PaymentStreamNotDue);
    }
    let recipient: Pubkey = stream.recipient;
    match authorize_payout(treasury, role, &recipient, entry, amount, now) {
        Ok(()) => {},
        Err(refusal) => {
            return Err(refusal);
        },
    }
    stream.advance(now);
    Ok(Transfer { recipient, asset: Asset::Token(stream.token_mint), amount })
}

/// Why the holder of `role` may not close `stream`, if so: a stream that is
/// not active cannot be closed again, and only a role with the capability
/// to create streams may close one.
pub open spec fn cancellation_refusal(
    stream: &PaymentStream,
    role: &Role,
) -> Option<TreasuryManagementError> {
    if !stream.is_active {
        Some(TreasuryManagementError::PaymentStreamInactive)
    } else if !role.holds(Capability::CreateStreams) {
        Some(TreasuryManagementError::InsufficientPermissions)
    } else {
        None
    }
}

/// Closes `stream` for good: it becomes inactive, and what it had accrued
/// but not paid is no longer due. A paused treasury does not hinder it.
pub fn cancel_payment_stream(
    stream: &mut PaymentStream,
    role: &Role,
) -> (outcome: Result<(), TreasuryManagementError>)
    ensures
        match cancellation_refusal(old(stream), role) {
            Some(refusal) => {
                &&& outcome == Err::<(), TreasuryManagementError>(refusal)
                &&& *final(stream) == *old(stream)
            },
            None => {
                &&& outcome is Ok
                &&& *final(stream) == (PaymentStream { is_active: false, ..*old(stream) })
            },
        },
        old(stream).wf() ==> final(stream).wf(),
        forall|now: i64| outcome is Ok ==> final(stream).due(now) == 0,
{
    if !stream.is_active {
        return Err(TreasuryManagementError::PaymentStreamInactive);
    }
    match require_capability(role, Capability::CreateStreams) {
        Ok(()) => {},
        Err(refusal) => {
            return Err(refusal);
        },
    }
    stream.is_active = false;
    assert forall|now: i64| stream.due(now) == 0 by {
        assert(stream.due_periods(now) * stream.amount_per_period == 0) by (nonlinear_arith)
            requires
                stream.due_periods(now) == 0,
        ;
    }
    Ok(())
}

} // verus!
