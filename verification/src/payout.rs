//! The guards that every payment passes before value moves, and the order
//! to move it.

use vstd::prelude::*;
use crate::error::TreasuryManagementError;
use crate::permissions::{require_capability, Capability};
use crate::pubkey::Pubkey;
use crate::spending::{charged, check_and_record, within_limit};
use crate::state::role::Role;
use crate::state::treasury::Treasury;
use crate::state::whitelisted_recipient::WhitelistedRecipient;
use crate::whitelist::{is_whitelisted, whitelist_allows};

verus! {

/// What is paid: the native coin, or the token of a mint.
#[derive(Clone, Copy, Debug, PartialEq, Eq)]
pub enum Asset {
    Native,
    Token(Pubkey),
}

/// An order to move `amount` of `asset` out of the treasury to `recipient`.
/// The operation that returns it has recorded the payment; the caller moves
/// the value and commits the records, or does neither.
#[derive(Clone, Copy, Debug, PartialEq, Eq)]
pub struct Transfer {
    pub recipient: Pubkey,
    pub asset: Asset,
    pub amount: u64,
}

/// Why a payment of `amount` to `recipient` at `now`, made by the holder of
/// `role`, is refused, if it is. The guards are asked in this order: the
/// capability to execute payments, an amount that is not zero, the
/// allow-list, the spending limit of the role, and at last the pause of the
/// treasury.
pub open spec fn payout_refusal(
    treasury: &Treasury,
    role: &Role,
    recipient: Pubkey,
    entry: Option<&WhitelistedRecipient>,
    amount: int,
    now: i64,
) -> Option<TreasuryManagementError> {
    if !role.holds(Capability::ExecutePayments) {
        Some(TreasuryManagementError::InsufficientPermissions)
    } else if amount == 0 {
        Some(TreasuryManagementError::InvalidPaymentAmount)
    } else if !whitelist_allows(treasury, recipient, entry) {
        Some(TreasuryManagementError::RecipientNotWhitelisted)
    } else if !within_limit(treasury, role, amount, now) {
        Some(TreasuryManagementError::SpendingLimitExceeded)
    } else if treasury.is_paused {
        Some(TreasuryManagementError::TreasuryPaused)
    } else {
        None
    }
}

/// The treasury after it has paid out `amount`.
pub open spec fn debited(treasury: &Treasury, amount: int) -> Treasury {
    Treasury { total_withdrawn: (treasury.total_withdrawn + amount) as u64, ..*treasury }
}

/// Passes a payment through the guards and, if none refuses it, records it:
/// in the spending counter of the role and in the total that the treasury
/// has paid out. A refused payment changes nothing.
pub fn authorize_payout(
    treasury: &mut Treasury,
    role: &mut Role,
    recipient: &Pubkey,
    entry: Option<&WhitelistedRecipient>,
    amount: u64,
    now: i64,
) -> (verdict: Result<(), TreasuryManagementError>)
    requires
        old(treasury).total_withdrawn + amount <= u64::MAX,
    ensures
        match payout_refusal(old(treasury), old(role), *recipient, entry, amount as int, now) {
            Some(refusal) => {
                &&& verdict == Err::<(), TreasuryManagementError>(refusal)
                &&& *final(treasury) == *old(treasury)
                &&& *final(role) == *old(role)
            },
            None => {
                &&& verdict is Ok
                &&& *final(treasury) == debited(old(treasury), amount as int)
                &&& *final(role) == charged(old(treasury), old(role), amount as int, now)
            },
        },
        old(treasury).wf() ==> final(treasury).wf(),
        final(treasury).continues(old(treasury)),
{
    match require_capability(role, Capability::ExecutePayments) {
        Ok(()) => {},
        Err(refusal) => {
            return Err(refusal);
        },
    }
    if amount == 0 {
        return Err(TreasuryManagementError::InvalidPaymentAmount);
    }
    if !is_whitelisted(treasury, recipient, entry) {
        return Err(TreasuryManagementError::RecipientNotWhitelisted);
    }
    let mut spender: Role = *role;
    match check_and_record(treasury, &mut spender, amount, now) {
        Ok(()) => {},
        Err(refusal) => {
            return Err(refusal);
        },
    }
    if treasury.is_paused {
        return Err(TreasuryManagementError::TreasuryPaused);
    }
    *role = spender;
    treasury.total_withdrawn = treasury.total_withdrawn + amount;
    Ok(())
}

} // verus!
