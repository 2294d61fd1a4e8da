//! A fixed amount that falls due once per interval.

use vstd::prelude::*;
use crate::pubkey::Pubkey;

verus! {

/// A payment of `amount` to `recipient`, unlocked once per `interval`.
#[derive(Clone, Copy, Debug, PartialEq, Eq)]
pub struct RecurringPayment {
    pub treasury: Pubkey,
    pub recipient: Pubkey,
    pub token_mint: Pubkey,
    pub amount: u64,
    /// The seconds between two payments.
    pub interval: i64,
    /// When the next payment falls due.
    pub next_payment_date: i64,
    pub is_active: bool,
    pub created_by: Pubkey,
    pub category: u8,
}

impl RecurringPayment {
    /// The invariant of a recurring payment: it pays something.
    pub open spec fn wf(&self) -> bool {
        self.amount > 0
    }

    /// Whether a payment can be claimed at `now`.
    pub open spec fn is_due(&self, now: i64) -> bool {
        self.is_active && now >= self.next_payment_date
    }

    /// What can be claimed at `now`: the fixed amount or nothing.
    pub open spec fn due(&self, now: i64) -> int {
        if self.is_due(now) {
            self.amount as int
        } else {
            0
        }
    }

    /// The payment after one claim: the due date moves on by one interval,
    /// whenever the claim was made.
    pub open spec fn advanced(&self) -> RecurringPayment {
        RecurringPayment {
            next_payment_date: (self.next_payment_date + self.interval) as i64,
            ..*self
        }
    }

    /// The amount that can be claimed at `now`.
    pub fn due_amount(&self, now: i64) -> (amount: u64)
        ensures
            amount == self.due(now),
    {
        if self.is_active && now >= self.next_payment_date {
            self.amount
        } else {
            0
        }
    }

    /// Moves the due date on by one interval.
    pub fn advance(&mut self)
        requires
            i64::MIN <= old(self).next_payment_date + old(self).interval <= i64::MAX,
        ensures
            *final(self) == old(self).advanced(),
            final(self).next_payment_date == old(self).next_payment_date + old(self).interval,
    {
        self.next_payment_date = self.next_payment_date + self.interval;
    }
}

} // verus!
