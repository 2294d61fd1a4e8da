//! What holds of every payment, whichever operation makes it.

use vstd::prelude::*;
use crate::batch::{batch_refusal, batch_total, BatchItem};
use crate::control::deposit_refusal;
use crate::error::TreasuryManagementError;
use crate::milestones::completion_refusal;
use crate::payout::payout_refusal;
use crate::permissions::Capability;
use crate::proposals::execution_refusal;
use crate::pubkey::Pubkey;
use crate::recurring::recurring_refusal;
use crate::spending::{limit_for, reset_is_due, within_limit};
use crate::state::milestone_payment::MilestonePayment;
use crate::state::payment_stream::PaymentStream;
use crate::state::proposal::{Proposal, ProposalStatus};
use crate::state::recurring_payment::RecurringPayment;
use crate::state::role::Role;
use crate::state::treasury::Treasury;
use crate::state::whitelisted_recipient::WhitelistedRecipient;
use crate::streams::stream_refusal;
use crate::whitelist::whitelist_allows;

verus! {

/// A role cannot spend past its limit. While no reset of its counter is
/// due, an amount that would take what the role has used over the limit of
/// its tier is not within the limit: counting it is refused, and the role
/// stays as it was. A payment of such an amount that passes the guards
/// asked before the limit fails for the limit.
pub proof fn lemma_over_limit_is_refused(
    treasury: &Treasury,
    role: &Role,
    recipient: Pubkey,
    entry: Option<&WhitelistedRecipient>,
    amount: u64,
    now: i64,
)
    requires
        !reset_is_due(role, treasury.reset_period, now),
        role.spending_limit_used + amount > limit_for(treasury, role.role_type),
    ensures
        !within_limit(treasury, role, amount as int, now),
        payout_refusal(treasury, role, recipient, entry, amount as int, now) is Some,
        role.holds(Capability::ExecutePayments) && amount != 0 && whitelist_allows(
            treasury,
            recipient,
            entry,
        ) ==> payout_refusal(treasury, role, recipient, entry, amount as int, now) == Some(
            TreasuryManagementError::SpendingLimitExceeded,
        ),
{
}

/// The spending limit guards every way out of the treasury: no direct
/// withdrawal, proposal, stream, recurring payment, milestone or batch
/// pays an amount that is not within the limit of the role that asks.
pub proof fn lemma_limit_guards_every_payment(
    treasury: &Treasury,
    role: &Role,
    recipient: Pubkey,
    entry: Option<&WhitelistedRecipient>,
    amount: u64,
    proposal: &Proposal,
    stream: &PaymentStream,
    recurring: &RecurringPayment,
    milestone: &MilestonePayment,
    items: Seq<BatchItem>,
    now: i64,
)
    ensures
        !within_limit(treasury, role, amount as int, now)
            ==> payout_refusal(treasury, role, recipient, entry, amount as int, now) is Some,
        !within_limit(treasury, role, proposal.amount as int, now)
            ==> execution_refusal(treasury, proposal, role, entry, now) is Some,
        !within_limit(treasury, role, stream.due(now), now)
            ==> stream_refusal(treasury, stream, role, entry, now) is Some,
        !within_limit(treasury, role, recurring.amount as int, now)
            ==> recurring_refusal(treasury, recurring, role, entry, now) is Some,
        !within_limit(treasury, role, milestone.amount as int, now)
            ==> completion_refusal(treasury, milestone, role, entry, now) is Some,
        !within_limit(treasury, role, batch_total(items), now)
            ==> batch_refusal(treasury, role, items, now) is Some,
{
}

/// A paused treasury moves no value: every deposit, direct withdrawal,
/// proposal, stream, recurring payment, milestone and batch is refused.
pub proof fn lemma_pause_blocks_every_payment(
    treasury: &Treasury,
    role: &Role,
    recipient: Pubkey,
    entry: Option<&WhitelistedRecipient>,
    amount: u64,
    proposal: &Proposal,
    stream: &PaymentStream,
    recurring: &RecurringPayment,
    milestone: &MilestonePayment,
    items: Seq<BatchItem>,
    now: i64,
)
    requires
        treasury.is_paused,
    ensures
        deposit_refusal(treasury, amount) is Some,
        payout_refusal(treasury, role, recipient, entry, amount as int, now) is Some,
        execution_refusal(treasury, proposal, role, entry, now) is Some,
        stream_refusal(treasury, stream, role, entry, now) is Some,
        recurring_refusal(treasury, recurring, role, entry, now) is Some,
        completion_refusal(treasury, milestone, role, entry, now) is Some,
        batch_refusal(treasury, role, items, now) is Some,
{
}

/// What passes every other guard is refused for the pause alone: in a
/// paused treasury, a payment of an amount that is not zero and within the
/// limit, asked by a role that may execute payments, to a recipient that
/// the allow-list allows, fails as paused; and so do the execution of an
/// approved proposal and the claim of a stream that ask for such a
/// payment.
pub proof fn lemma_paused_payment_fails_as_paused(
    treasury: &Treasury,
    role: &Role,
    recipient: Pubkey,
    entry: Option<&WhitelistedRecipient>,
    amount: u64,
    proposal: &Proposal,
    stream: &PaymentStream,
    now: i64,
)
    requires
        treasury.is_paused,
        role.holds(Capability::ExecutePayments),
    ensures
        amount != 0 && whitelist_allows(treasury, recipient, entry) && within_limit(
            treasury,
            role,
            amount as int,
            now,
        ) ==> payout_refusal(treasury, role, recipient, entry, amount as int, now) == Some(
            TreasuryManagementError::TreasuryPaused,
        ),
        proposal.status == ProposalStatus::Approved && proposal.amount != 0 && whitelist_allows(
            treasury,
            proposal.recipient,
            entry,
        ) && within_limit(treasury, role, proposal.amount as int, now) ==> execution_refusal(
            treasury,
            proposal,
            role,
            entry,
            now,
        ) == Some(TreasuryManagementError::TreasuryPaused),
        stream.is_active && stream.due(now) > 0 && whitelist_allows(
            treasury,
            stream.recipient,
            entry,
        ) && within_limit(treasury, role, stream.due(now), now) ==> stream_refusal(
            treasury,
            stream,
            role,
            entry,
            now,
        ) == Some(TreasuryManagementError::TreasuryPaused),
{
}

} // verus!
