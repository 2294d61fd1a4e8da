//! Paying several recipients at once, under the guards of one payment.

use vstd::prelude::*;
use crate::error::TreasuryManagementError;
use crate::payout::{debited, Asset, Transfer};
use crate::permissions::{require_capability, Capability};
use crate::pubkey::Pubkey;
use crate::spending::{charged, check_and_record, within_limit};
use crate::state::role::Role;
use crate::state::treasury::Treasury;
use crate::state::whitelisted_recipient::WhitelistedRecipient;
use crate::whitelist::{is_whitelisted, whitelist_allows};

verus! {

/// One payment of a batch: who is paid how much, and what the allow-list
/// holds for the recipient.
#[derive(Clone, Debug, PartialEq, Eq)]
pub struct BatchItem {
    pub recipient: Pubkey,
    pub amount: u64,
    pub whitelist_entry: Option<WhitelistedRecipient>,
}

impl BatchItem {
    /// What the allow-list holds for the recipient of this payment.
    pub open spec fn entry(&self) -> Option<&WhitelistedRecipient> {
        match self.whitelist_entry {
            Some(found) => Some(&found),
            None => None,
        }
    }

    /// The order to move the value of this payment, in the token of
    /// `token_mint`.
    pub open spec fn transfer(&self, token_mint: Pubkey) -> Transfer {
        Transfer { recipient: self.recipient, asset: Asset::Token(token_mint), amount: self.amount }
    }
}

/// The sum of the amounts of `items`.
pub open spec fn batch_total(items: Seq<BatchItem>) -> int
    decreases items.len(),
{
    if items.len() == 0 {
        0
    } else {
        batch_total(items.drop_last()) + items.last().amount
    }
}

/// Why the holder of `role` may not pay `items` at `now`, if so. Asked in
/// this order: the role holds the capability to execute payments; no
/// amount is zero; the allow-list allows every recipient; the sum of the
/// amounts stays within the spending limit of the role; the treasury is
/// not paused.
pub open spec fn batch_refusal(
    treasury: &Treasury,
    role: &Role,
    items: Seq<BatchItem>,
    now: i64,
) -> Option<TreasuryManagementError> {
    if !role.holds(Capability::ExecutePayments) {
        Some(TreasuryManagementError::InsufficientPermissions)
    } else if exists|i: int| 0 <= i < items.len() && (#[trigger] items[i]).amount == 0 {
        Some(TreasuryManagementError::InvalidPaymentAmount)
    } else if exists|i: int|
        0 <= i < items.len() && !whitelist_allows(
            treasury,
            (#[trigger] items[i]).recipient,
            items[i].entry(),
        ) {
        Some(TreasuryManagementError::RecipientNotWhitelisted)
    } else if !within_limit(treasury, role, batch_total(items), now) {
        Some(TreasuryManagementError::SpendingLimitExceeded)
    } else if treasury.is_paused {
        Some(TreasuryManagementError::TreasuryPaused)
    } else {
        None
    }
}

/// The sum over one more item is the sum so far and the amount of that
/// item.
proof fn lemma_batch_total_step(items: Seq<BatchItem>, count: int)
    requires
        0 <= count < items.len(),
    ensures
        batch_total(items.take(count + 1)) == batch_total(items.take(count)) + items[count].amount,
{
    assert(items.take(count + 1).drop_last() == items.take(count));
}

/// The sum over the first items of a batch is not negative and not more
/// than the sum over all of them.
proof fn lemma_batch_total_grows(items: Seq<BatchItem>, count: int)
    requires
        0 <= count <= items.len(),
    ensures
        0 <= batch_total(items.take(count)) <= batch_total(items),
    decreases items.len() - count,
{
    if count == items.len() {
        assert(items.take(count) == items);
        lemma_batch_total_nonnegative(items);
    } else {
        lemma_batch_total_step(items, count);
        lemma_batch_total_grows(items, count + 1);
        lemma_batch_total_nonnegative(items.take(count));
    }
}

/// No sum of amounts is negative.
proof fn lemma_batch_total_nonnegative(items: Seq<BatchItem>)
    ensures
        0 <= batch_total(items),
    decreases items.len(),
{
    if items.len() > 0 {
        lemma_batch_total_nonnegative(items.drop_last());
    }
}

/// Adds up the amounts of `items`, as far as the sum fits in 64 bits.
fn sum_amounts(items: &Vec<BatchItem>) -> (total: Option<u64>)
    ensures
        match total {
            Some(sum) => sum == batch_total(items@),
            None => batch_total(items@) > u64::MAX,
        },
{
    let mut sum: u64 = 0;
    let mut i: usize = 0;
    while i < items.len()
        invariant
            i <= items.len(),
            sum == batch_total(items@.take(i as int)),
        decreases items.len() - i,
    {
        proof {
            lemma_batch_total_step(items@, i as int);
            lemma_batch_total_grows(items@, i + 1);
        }
        let amount: u64 = items[i].amount;
        if amount > u64::MAX - sum {
            return None;
        }
        sum = sum + amount;
        i += 1;
    }
    assert(items@.take(i as int) == items@);
    Some(sum)
}

/// Tells whether some item of `items` has an amount of zero.
fn has_empty_amount(items: &Vec<BatchItem>) -> (found: bool)
    ensures
        found == exists|i: int| 0 <= i < items@.len() && (#[trigger] items@[i]).amount == 0,
{
    let mut i: usize = 0;
    while i < items.len()
        invariant
            i <= items.len(),
            forall|j: int| 0 <= j < i ==> (#[trigger] items@[j]).amount != 0,
        decreases items.len() - i,
    {
        if items[i].amount == 0 {
            return true;
        }
        i += 1;
    }
    false
}

/// Tells whether the allow-list allows the recipient of every item.
fn all_whitelisted(treasury: &Treasury, items: &Vec<BatchItem>) -> (allowed: bool)
    ensures
        allowed == !exists|i: int|
            0 <= i < items@.len() && !whitelist_allows(
                treasury,
                (#[trigger] items@[i]).recipient,
                items@[i].entry(),
            ),
{
    let mut i: usize = 0;
    while i < items.len()
        invariant
            i <= items.len(),
            forall|j: int|
                0 <= j < i ==> whitelist_allows(
                    treasury,
                    (#[trigger] items@[j]).recipient,
                    items@[j].entry(),
                ),
        decreases items.len() - i,
    {
        let item = &items[i];
        if !is_whitelisted(treasury, &item.recipient, item.whitelist_entry.as_ref()) {
            return false;
        }
        i += 1;
    }
    true
}

/// Writes the order to move the value of every item, in the order of the
/// items.
fn transfers_of(items: &Vec<BatchItem>, token_mint: Pubkey) -> (transfers: Vec<Transfer>)
    ensures
        transfers@.len() == items@.len(),
        forall|i: int|
            0 <= i < items@.len() ==> transfers@[i] == (#[trigger] items@[i]).transfer(token_mint),
{
    let mut transfers: Vec<Transfer> = Vec::new();
    let mut i: usize = 0;
    while i < items.len()
        invariant
            i <= items.len(),
            transfers@.len() == i,
            forall|j: int| 0 <= j < i ==> transfers@[j] == (#[trigger] items@[j]).transfer(token_mint),
        decreases items.len() - i,
    {
        let item = &items[i];
        transfers.push(
            Transfer {
                recipient: item.recipient,
                asset: Asset::Token(token_mint),
                amount: item.amount,
            },
        );
        i += 1;
    }
    transfers
}

/// Pays every item of a batch in the token of `token_mint`, or none: the
/// sum of the amounts is counted against the spending limit of `role` and
/// recorded as paid out, and the orders to move the value are returned in
/// the order of the items. A refused batch changes nothing.
pub fn batch_transfer(
    treasury: &mut Treasury,
    role: &mut Role,
    token_mint: Pubkey,
    items: &Vec<BatchItem>,
    now: i64,
) -> (outcome: Result<Vec<Transfer>, TreasuryManagementError>)
    requires
        within_limit(old(treasury), old(role), batch_total(items@), now)
            ==> old(treasury).total_withdrawn + batch_total(items@) <= u64::MAX,
    ensures
        match batch_refusal(old(treasury), old(role), items@, now) {
            Some(refusal) => {
                &&& outcome == Err::<Vec<Transfer>, TreasuryManagementError>(refusal)
                &&& *final(treasury) == *old(treasury)
                &&& *final(role) == *old(role)
            },
            None => {
                &&& outcome matches Ok(transfers)
                &&& transfers@.len() == items@.len()
                &&& forall|i: int|
                    0 <= i < items@.len() ==> transfers@[i] == (#[trigger] items@[i]).transfer(
                        token_mint,
                    )
                &&& *final(treasury) == debited(old(treasury), batch_total(items@))
                &&& *final(role) == charged(old(treasury), old(role), batch_total(items@), now)
            },
        },
        old(treasury).wf() ==> final(treasury).wf(),
        final(treasury).continues(old(treasury)),
{
    match require_capability(role, Capability::ExecutePayments) {
        Ok(()) => {},
        Err(refusal) => {
            return Err(refusal);
        },
    }
    if has_empty_amount(items) {
        return Err(TreasuryManagementError::InvalidPaymentAmount);
    }
    if !all_whitelisted(treasury, items) {
        return Err(TreasuryManagementError::RecipientNotWhitelisted);
    }
    let total: u64 = match sum_amounts(items) {
        Some(sum) => sum,
        None => {
            return Err(TreasuryManagementError::SpendingLimitExceeded);
        },
    };
    let mut spender: Role = *role;
    match check_and_record(treasury, &mut spender, total, now) {
        Ok(()) => {},
        Err(refusal) => {
            return Err(refusal);
        },
    }
    if treasury.is_paused {
        return Err(TreasuryManagementError::TreasuryPaused);
    }
    let transfers = transfers_of(items, token_mint);
    *role = spender;
    treasury.total_withdrawn = treasury.total_withdrawn + total;
    Ok(transfers)
}

} // verus!
