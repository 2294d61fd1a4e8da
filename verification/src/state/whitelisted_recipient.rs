//! An entry of the allow-list of recipients.

use vstd::prelude::*;
use crate::pubkey::Pubkey;

verus! {

/// The record that allows `recipient` to be paid by `treasury`. It says so
/// by existing: there is no flag in it.
#[derive(Clone, Debug, PartialEq, Eq)]
pub struct WhitelistedRecipient {
    pub treasury: Pubkey,
    pub recipient: Pubkey,
    pub label: String,
    pub added_by: Pubkey,
    pub added_at: i64,
}

} // verus!
