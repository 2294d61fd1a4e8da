//! The allow-list of recipients. A recipient is listed when the registry
//! holds an entry for it; nothing else is asked of the entry.

use vstd::prelude::*;
use crate::error::TreasuryManagementError;
use crate::permissions::{authorize_authority, Caller};
use crate::pubkey::Pubkey;
use crate::state::treasury::Treasury;
use crate::state::whitelisted_recipient::WhitelistedRecipient;

verus! {

/// Whether `entry`, the record that the registry holds for a recipient if it
/// holds one, lists `recipient`.
pub open spec fn is_listed(recipient: Pubkey, entry: Option<&WhitelistedRecipient>) -> bool {
    match entry {
        Some(found) => found.recipient == recipient,
        None => false,
    }
}

/// Whether `treasury` may pay `recipient`: always while the allow-list is
/// not enforced, else only a listed recipient.
pub open spec fn whitelist_allows(
    treasury: &Treasury,
    recipient: Pubkey,
    entry: Option<&WhitelistedRecipient>,
) -> bool {
    !treasury.whitelist_enabled || is_listed(recipient, entry)
}

/// Tells whether `treasury` may pay `recipient`, where `entry` is what the
/// registry holds for the recipient.
pub fn is_whitelisted(
    treasury: &Treasury,
    recipient: &Pubkey,
    entry: Option<&WhitelistedRecipient>,
) -> (allowed: bool)
    ensures
        allowed == whitelist_allows(treasury, *recipient, entry),
{
    if !treasury.whitelist_enabled {
        return true;
    }
    match entry {
        Some(found) => found.recipient == *recipient,
        None => false,
    }
}

/// Makes the entry that lists `recipient` for the treasury at
/// `treasury_key`. Only the authority of the treasury may do so; a paused
/// treasury does not hinder it.
pub fn add_whitelist_recipient(
    treasury_key: Pubkey,
    caller: &Caller,
    signer: Pubkey,
    recipient: Pubkey,
    label: String,
    now: i64,
) -> (outcome: Result<WhitelistedRecipient, TreasuryManagementError>)
    ensures
        if *caller == Caller::TreasuryAuthority {
            outcome == Ok::<WhitelistedRecipient, TreasuryManagementError>(
                (WhitelistedRecipient {
                    treasury: treasury_key,
                    recipient,
                    label,
                    added_by: signer,
                    added_at: now,
                }),
            )
        } else {
            outcome == Err::<WhitelistedRecipient, TreasuryManagementError>(
                TreasuryManagementError::InsufficientPermissions,
            )
        },
{
    match authorize_authority(caller) {
        Ok(()) => Ok(
            WhitelistedRecipient {
                treasury: treasury_key,
                recipient,
                label,
                added_by: signer,
                added_at: now,
            },
        ),
        Err(refusal) => Err(refusal),
    }
}

/// Decides whether `entry` may be taken off the allow-list: by the
/// authority of the treasury only. The entry is returned for removal.
pub fn remove_whitelist_recipient(
    caller: &Caller,
    entry: WhitelistedRecipient,
) -> (outcome: Result<WhitelistedRecipient, TreasuryManagementError>)
    ensures
        if *caller == Caller::TreasuryAuthority {
            outcome == Ok::<WhitelistedRecipient, TreasuryManagementError>(entry)
        } else {
            outcome == Err::<WhitelistedRecipient, TreasuryManagementError>(
                TreasuryManagementError::InsufficientPermissions,
            )
        },
{
    match authorize_authority(caller) {
        Ok(()) => Ok(entry),
        Err(refusal) => Err(refusal),
    }
}

/// Switches the enforcement of the allow-list on or off. Only the authority
/// of the treasury may do so.
pub fn set_whitelist_enabled(
    treasury: &mut Treasury,
    caller: &Caller,
    enabled: bool,
) -> (outcome: Result<(), TreasuryManagementError>)
    ensures
        if *caller == Caller::TreasuryAuthority {
            &&& outcome is Ok
            &&& *final(treasury) == (Treasury { whitelist_enabled: enabled, ..*old(treasury) })
        } else {
            &&& outcome == Err::<(), TreasuryManagementError>(
                TreasuryManagementError::InsufficientPermissions,
            )
            &&& *final(treasury) == *old(treasury)
        },
        old(treasury).wf() ==> final(treasury).wf(),
        final(treasury).continues(old(treasury)),
{
    match authorize_authority(caller) {
        Ok(()) => {
            treasury.whitelist_enabled = enabled;
            Ok(())
        },
        Err(refusal) => Err(refusal),
    }
}

} // verus!
