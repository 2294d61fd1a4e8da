//! A request to spend, decided by votes.

use vstd::prelude::*;
use crate::pubkey::Pubkey;

verus! {

/// Where a proposal stands. A new proposal is `Open`; votes move it to
/// `Approved` or `Rejected`; executing an approved proposal makes it
/// `Executed`, where it stays.
#[derive(Clone, Copy, Debug, PartialEq, Eq, Structural)]
pub enum ProposalStatus {
    Draft,
    Open,
    Approved,
    Rejected,
    Executed,
}

impl ProposalStatus {
    /// The number under which a status is stored.
    pub open spec fn code_of(self) -> u8 {
        match self {
            ProposalStatus::Draft => 0,
            ProposalStatus::Open => 1,
            ProposalStatus::Approved => 2,
            ProposalStatus::Rejected => 3,
            ProposalStatus::Executed => 4,
        }
    }

    /// The number under which this status is stored.
    pub fn code(&self) -> (code: u8)
        ensures
            code == self.code_of(),
    {
        match self {
            ProposalStatus::Draft => 0,
            ProposalStatus::Open => 1,
            ProposalStatus::Approved => 2,
            ProposalStatus::Rejected => 3,
            ProposalStatus::Executed => 4,
        }
    }

    /// The status stored under `code`, if there is one.
    pub fn from_code(code: u8) -> (status: Option<ProposalStatus>)
        ensures
            match status {
                Some(s) => s.code_of() == code,
                None => code > 4,
            },
    {
        if code == 0 {
            Some(ProposalStatus::Draft)
        } else if code == 1 {
            Some(ProposalStatus::Open)
        } else if code == 2 {
            Some(ProposalStatus::Approved)
        } else if code == 3 {
            Some(ProposalStatus::Rejected)
        } else if code == 4 {
            Some(ProposalStatus::Executed)
        } else {
            None
        }
    }
}

/// A request to pay `amount` to `recipient`.
#[derive(Clone, Debug, PartialEq, Eq)]
pub struct Proposal {
    pub treasury: Pubkey,
    pub proposer: Pubkey,
    pub title: String,
    pub description: String,
    /// Fixed when the proposal is created.
    pub amount: u64,
    pub token_mint: Pubkey,
    pub recipient: Pubkey,
    pub votes_for: u32,
    pub votes_against: u32,
    pub status: ProposalStatus,
    pub created_at: i64,
    /// When the proposal was executed; zero until then.
    pub executed_at: i64,
    /// Everyone who has voted, in the order of voting.
    pub voters: Vec<Pubkey>,
}

impl Proposal {
    /// The invariant of a proposal: every voter is recorded once, and every
    /// recorded voter cast one vote.
    pub open spec fn wf(&self) -> bool {
        &&& self.voters@.no_duplicates()
        &&& self.votes_for + self.votes_against == self.voters@.len()
    }
}

} // verus!
