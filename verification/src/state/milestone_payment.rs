//! A single payment that waits for a milestone to be reached.

use vstd::prelude::*;
use crate::pubkey::Pubkey;

verus! {

/// A payment of `amount` to `recipient`, released once by completing it.
#[derive(Clone, Debug, PartialEq, Eq)]
pub struct MilestonePayment {
    pub treasury: Pubkey,
    pub recipient: Pubkey,
    pub token_mint: Pubkey,
    pub amount: u64,
    pub description: String,
    pub is_completed: bool,
    pub created_at: i64,
    /// When the milestone was completed; zero until then.
    pub completed_at: i64,
    pub created_by: Pubkey,
    pub category: u8,
}

impl MilestonePayment {
    /// What completing the milestone would release: its amount while it is
    /// open, nothing once it has been completed.
    pub open spec fn due(&self) -> int {
        if self.is_completed {
            0
        } else {
            self.amount as int
        }
    }

    /// The amount that completing the milestone would release.
    pub fn due_amount(&self) -> (amount: u64)
        ensures
            amount == self.due(),
    {
        if self.is_completed {
            0
        } else {
            self.amount
        }
    }
}

} // verus!
