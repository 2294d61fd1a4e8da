//! The life of a proposal: created open, decided by votes, executed once.

use vstd::prelude::*;
use crate::error::TreasuryManagementError;
use crate::payout::{authorize_payout, debited, payout_refusal, Asset, Transfer};
use crate::permissions::{require_capability, Capability};
use crate::pubkey::{contains_key, Pubkey};
use crate::spending::charged;
use crate::state::proposal::{Proposal, ProposalStatus};
use crate::state::role::Role;
use crate::state::treasury::Treasury;
use crate::state::whitelisted_recipient::WhitelistedRecipient;

verus! {

/// Whether two proposals ask for the same thing: all that is fixed when a
/// proposal is created is equal in both.
pub open spec fn same_request(a: &Proposal, b: &Proposal) -> bool {
    &&& a.treasury == b.treasury
    &&& a.proposer == b.proposer
    &&& a.title == b.title
    &&& a.description == b.description
    &&& a.amount == b.amount
    &&& a.token_mint == b.token_mint
    &&& a.recipient == b.recipient
    &&& a.created_at == b.created_at
}

/// Why the holder of `role` may not propose to spend `amount`, if so: a role
/// without the capability to propose is refused first, then an empty
/// amount.
pub open spec fn proposal_refusal(role: &Role, amount: u64) -> Option<TreasuryManagementError> {
    if !role.holds(Capability::Propose) {
        Some(TreasuryManagementError::InsufficientPermissions)
    } else if amount == 0 {
        Some(TreasuryManagementError::InvalidPaymentAmount)
    } else {
        None
    }
}

/// Creates a proposal to pay `amount` of the token of `token_mint` to
/// `recipient`. It is open, and nobody has voted on it. A paused treasury
/// does not hinder it.
pub fn create_proposal(
    treasury_key: Pubkey,
    role: &Role,
    proposer: Pubkey,
    title: String,
    description: String,
    amount: u64,
    token_mint: Pubkey,
    recipient: Pubkey,
    now: i64,
) -> (outcome: Result<Proposal, TreasuryManagementError>)
    ensures
        match proposal_refusal(role, amount) {
            Some(refusal) => outcome == Err::<Proposal, TreasuryManagementError>(refusal),
            None => {
                &&& outcome matches Ok(proposal)
                &&& proposal.treasury == treasury_key
                &&& proposal.proposer == proposer
                &&& proposal.title == title
                &&& proposal.description == description
                &&& proposal.amount == amount
                &&& proposal.token_mint == token_mint
                &&& proposal.recipient == recipient
                &&& proposal.votes_for == 0
                &&& proposal.votes_against == 0
                &&& proposal.status == ProposalStatus::Open
                &&& proposal.created_at == now
                &&& proposal.executed_at == 0
                &&& proposal.voters@ == Seq::<Pubkey>::empty()
                &&& proposal.wf()
            },
        },
{
    match require_capability(role, Capability::Propose) {
        Ok(()) => {},
        Err(refusal) => {
            return Err(refusal);
        },
    }
    if amount == 0 {
        return Err(TreasuryManagementError::InvalidPaymentAmount);
    }
    Ok(
        Proposal {
            treasury: treasury_key,
            proposer,
            title,
            description,
            amount,
            token_mint,
            recipient,
            votes_for: 0,
            votes_against: 0,
            status: ProposalStatus::Open,
            created_at: now,
            executed_at: 0,
            voters: Vec::new(),
        },
    )
}

/// Why a vote of `voter`, who holds `role`, is refused, if it is. Asked in
/// this order: the voter has not voted yet; the proposal is still open (one
/// that was approved or executed is past its vote, one that is a draft or
/// was rejected has not been approved); the role holds the capability to
/// vote.
pub open spec fn vote_refusal(
    proposal: &Proposal,
    role: &Role,
    voter: Pubkey,
) -> Option<TreasuryManagementError> {
    if proposal.voters@.contains(voter) {
        Some(TreasuryManagementError::UserAlreadyVoted)
    } else if proposal.status == ProposalStatus::Approved || proposal.status
        == ProposalStatus::Executed {
        Some(TreasuryManagementError::ProposalAlreadyExecuted)
    } else if proposal.status != ProposalStatus::Open {
        Some(TreasuryManagementError::ProposalNotApproved)
    } else if !role.holds(Capability::Vote) {
        Some(TreasuryManagementError::InsufficientPermissions)
    } else {
        None
    }
}

/// Where an open proposal stands once it has `votes_for` votes for it and
/// `votes_against` against it: approved as soon as the votes for it reach
/// the threshold of the treasury; rejected as soon as so many have voted
/// against it that the signers left cannot reach the threshold; open until
/// then.
pub open spec fn status_after_vote(
    treasury: &Treasury,
    votes_for: int,
    votes_against: int,
) -> ProposalStatus {
    if votes_for >= treasury.threshold {
        ProposalStatus::Approved
    } else if votes_against > treasury.signers@.len() - treasury.threshold {
        ProposalStatus::Rejected
    } else {
        ProposalStatus::Open
    }
}

/// Whether `after` is `before` with one more vote, that of `voter`, counted
/// for the proposal if `vote_for` and against it otherwise.
pub open spec fn vote_recorded(
    treasury: &Treasury,
    before: &Proposal,
    after: &Proposal,
    voter: Pubkey,
    vote_for: bool,
) -> bool {
    &&& same_request(before, after)
    &&& after.executed_at == before.executed_at
    &&& after.voters@ == before.voters@.push(voter)
    &&& after.votes_for == before.votes_for + (if vote_for { 1int } else { 0int })
    &&& after.votes_against == before.votes_against + (if vote_for { 0int } else { 1int })
    &&& after.status == status_after_vote(
        treasury,
        after.votes_for as int,
        after.votes_against as int,
    )
}

/// Casts the vote of `voter`, who holds `role`, on an open proposal of
/// `treasury`. The vote is recorded with the voter, and it decides the
/// proposal where it completes the threshold or makes it unreachable. A
/// refused vote changes nothing. A paused treasury does not hinder voting.
pub fn vote_on_proposal(
    treasury: &Treasury,
    proposal: &mut Proposal,
    role: &Role,
    voter: Pubkey,
    vote_for: bool,
) -> (outcome: Result<(), TreasuryManagementError>)
    requires
        old(proposal).wf(),
        old(proposal).voters@.len() < u32::MAX,
    ensures
        match vote_refusal(old(proposal), role, voter) {
            Some(refusal) => {
                &&& outcome == Err::<(), TreasuryManagementError>(refusal)
                &&& *final(proposal) == *old(proposal)
            },
            None => {
                &&& outcome is Ok
                &&& vote_recorded(treasury, old(proposal), final(proposal), voter, vote_for)
            },
        },
        final(proposal).wf(),
{
    if contains_key(&proposal.voters, &voter) {
        return Err(TreasuryManagementError::UserAlreadyVoted);
    }
    match proposal.status {
        ProposalStatus::Open => {},
        ProposalStatus::Approved | ProposalStatus::Executed => {
            return Err(TreasuryManagementError::ProposalAlreadyExecuted);
        },
        ProposalStatus::Draft | ProposalStatus::Rejected => {
            return Err(TreasuryManagementError::ProposalNotApproved);
        },
    }
    match require_capability(role, Capability::Vote) {
        Ok(()) => {},
        Err(refusal) => {
            return Err(refusal);
        },
    }
    proof {
        let before = proposal.voters@;
        assert forall|i: int, j: int|
            0 <= i < before.push(voter).len() && 0 <= j < before.push(voter).len() && i
                != j implies before.push(voter)[i] != before.push(voter)[j] by {
            if i < before.len() && j < before.len() {
            } else if i < before.len() {
                assert(before.contains(before[i]));
            } else {
                assert(before.contains(before[j]));
            }
        }
    }
    proposal.voters.push(voter);
    if vote_for {
        proposal.votes_for = proposal.votes_for + 1;
    } else {
        proposal.votes_against = proposal.votes_against + 1;
    }
    let signer_count: u128 = treasury.signers.len() as u128;
    if proposal.votes_for >= treasury.threshold as u32 {
        proposal.status = ProposalStatus::Approved;
    } else if proposal.votes_against as u128 + treasury.threshold as u128 > signer_count {
        proposal.status = ProposalStatus::Rejected;
    }
    Ok(())
}

/// Why the holder of `role` may not execute `proposal` at `now`, if so. The
/// state of the proposal is asked first: one that was executed cannot be
/// executed again, and one that is not approved cannot be executed at all.
/// Then the guards of a payment are asked.
pub open spec fn execution_refusal(
    treasury: &Treasury,
    proposal: &Proposal,
    role: &Role,
    entry: Option<&WhitelistedRecipient>,
    now: i64,
) -> Option<TreasuryManagementError> {
    if proposal.status == ProposalStatus::Executed {
        Some(TreasuryManagementError::ProposalAlreadyExecuted)
    } else if proposal.status != ProposalStatus::Approved {
        Some(TreasuryManagementError::ProposalNotApproved)
    } else {
        payout_refusal(treasury, role, proposal.recipient, entry, proposal.amount as int, now)
    }
}

/// Whether `after` is `before`, executed at `now`.
pub open spec fn execution_recorded(before: &Proposal, after: &Proposal, now: i64) -> bool {
    &&& same_request(before, after)
    &&& after.voters == before.voters
    &&& after.votes_for == before.votes_for
    &&& after.votes_against == before.votes_against
    &&& after.status == ProposalStatus::Executed
    &&& after.executed_at == now
}

/// Executes an approved proposal for the holder of `role`: the payment of
/// the amount fixed at its creation is recorded, the proposal becomes
/// executed, and the order to move the value is returned. A refused
/// execution changes nothing.
pub fn execute_proposal(
    treasury: &mut Treasury,
    proposal: &mut Proposal,
    role: &mut Role,
    entry: Option<&WhitelistedRecipient>,
    now: i64,
) -> (outcome: Result<Transfer, TreasuryManagementError>)
    requires
        old(treasury).total_withdrawn + old(proposal).amount <= u64::MAX,
    ensures
        match execution_refusal(old(treasury), old(proposal), old(role), entry, now) {
            Some(refusal) => {
                &&& outcome == Err::<Transfer, TreasuryManagementError>(refusal)
                &&& *final(treasury) == *old(treasury)
                &&& *final(proposal) == *old(proposal)
                &&& *final(role) == *old(role)
            },
            None => {
                &&& outcome == Ok::<Transfer, TreasuryManagementError>(
                    (Transfer {
                        recipient: old(proposal).recipient,
                        asset: Asset::Token(old(proposal).token_mint),
                        amount: old(proposal).amount,
                    }),
                )
                &&& execution_recorded(old(proposal), final(proposal), now)
                &&& *final(treasury) == debited(old(treasury), old(proposal).amount as int)
                &&& *final(role) == charged(
                    old(treasury),
                    old(role),
                    old(proposal).amount as int,
                    now,
                )
            },
        },
        old(treasury).wf() ==> final(treasury).wf(),
        final(treasury).continues(old(treasury)),
        old(proposal).wf() ==> final(proposal).wf(),
{
    match proposal.status {
        ProposalStatus::Approved => {},
        ProposalStatus::Executed => {
            return Err(TreasuryManagementError::ProposalAlreadyExecuted);
        },
        _ => {
            return Err(TreasuryManagementError::ProposalNotApproved);
        },
    }
    let recipient: Pubkey = proposal.recipient;
    let amount: u64 = proposal.amount;
    match authorize_payout(treasury, role, &recipient, entry, amount, now) {
        Ok(()) => {},
        Err(refusal) => {
            return Err(refusal);
        },
    }
    proposal.status = ProposalStatus::Executed;
    proposal.executed_at = now;
    Ok(Transfer { recipient, asset: Asset::Token(proposal.token_mint), amount })
}

/// Nobody votes twice: once the vote of `voter` has been recorded, every
/// further vote of the same voter is refused as already cast, whatever has
/// become of the proposal and whatever role the voter holds by then.
pub proof fn lemma_second_vote_refused(
    treasury: &Treasury,
    before: &Proposal,
    after: &Proposal,
    voter: Pubkey,
    vote_for: bool,
    role: &Role,
)
    requires
        vote_recorded(treasury, before, after, voter, vote_for),
    ensures
        vote_refusal(after, role, voter) == Some(TreasuryManagementError::UserAlreadyVoted),
{
    let voters = before.voters@.push(voter);
    assert(voters[voters.len() - 1] == voter);
    assert(voters.contains(voter));
}

/// Only an approved proposal is executed: whoever asks and whenever, a
/// proposal that is a draft, open or rejected is refused as not approved,
/// and one that was executed is refused as already executed.
pub proof fn lemma_only_approved_executes(
    treasury: &Treasury,
    proposal: &Proposal,
    role: &Role,
    entry: Option<&WhitelistedRecipient>,
    now: i64,
)
    ensures
        proposal.status == ProposalStatus::Draft || proposal.status == ProposalStatus::Open
            || proposal.status == ProposalStatus::Rejected ==> execution_refusal(
            treasury,
            proposal,
            role,
            entry,
            now,
        ) == Some(TreasuryManagementError::ProposalNotApproved),
        proposal.status == ProposalStatus::Executed ==> execution_refusal(
            treasury,
            proposal,
            role,
            entry,
            now,
        ) == Some(TreasuryManagementError::ProposalAlreadyExecuted),
{
}

/// A proposal is approved by votes alone: one that a recorded vote has left
/// approved has at least as many votes for it as the threshold of the
/// treasury asks, and one that a recorded vote has left rejected has not.
pub proof fn lemma_approval_needs_the_threshold(
    treasury: &Treasury,
    before: &Proposal,
    after: &Proposal,
    voter: Pubkey,
    vote_for: bool,
)
    requires
        vote_recorded(treasury, before, after, voter, vote_for),
    ensures
        after.status == ProposalStatus::Approved <==> after.votes_for >= treasury.threshold,
        after.status == ProposalStatus::Rejected ==> after.votes_for < treasury.threshold,
        after.status != ProposalStatus::Executed,
        after.status != ProposalStatus::Draft,
{
}

/// A proposal that has left the vote takes no more votes: whoever votes on
/// a proposal that is not open is refused, and the proposal stays as it
/// is.
pub proof fn lemma_decided_proposal_takes_no_vote(proposal: &Proposal, role: &Role, voter: Pubkey)
    requires
        proposal.status != ProposalStatus::Open,
    ensures
        vote_refusal(proposal, role, voter) is Some,
{
}

/// A proposal is executed once: after an execution has been recorded, every
/// further execution is refused as already done.
pub proof fn lemma_second_execution_refused(
    treasury: &Treasury,
    before: &Proposal,
    after: &Proposal,
    executed_at: i64,
    role: &Role,
    entry: Option<&WhitelistedRecipient>,
    now: i64,
)
    requires
        execution_recorded(before, after, executed_at),
    ensures
        execution_refusal(treasury, after, role, entry, now) == Some(
            TreasuryManagementError::ProposalAlreadyExecuted,
        ),
{
}

} // verus!
