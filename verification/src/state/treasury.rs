//! The root record of a fund: its signers, limits and switches.

use vstd::prelude::*;
use crate::pubkey::Pubkey;

verus! {

/// One named fund.
#[derive(Clone, Debug, PartialEq, Eq)]
pub struct Treasury {
    pub name: String,
    /// The owner, who may always change the configuration.
    pub authority: Pubkey,
    /// The co-signers, each listed once.
    pub signers: Vec<Pubkey>,
    /// How many approving votes a proposal needs.
    pub threshold: u8,
    pub is_paused: bool,
    pub total_deposited: u64,
    pub total_withdrawn: u64,
    pub created_at: i64,
    /// The most a role of each tier may spend within one reset period.
    pub admin_limit: u64,
    pub treasurer_limit: u64,
    pub contributor_limit: u64,
    /// The length of a reset period, in seconds.
    pub reset_period: u64,
    pub auto_stake: bool,
    /// The share of the fund to keep staked, in percent.
    pub stake_target_percentage: u8,
    pub whitelist_enabled: bool,
}

/// Whether `threshold` approvals can be demanded of `signer_count` signers.
pub open spec fn threshold_in_range(threshold: u8, signer_count: nat) -> bool {
    1 <= threshold && threshold <= signer_count
}

/// Whether `percentage` is a share of a whole.
pub open spec fn percentage_in_range(percentage: u8) -> bool {
    percentage <= 100
}

impl Treasury {
    /// The invariant of a treasury: the threshold can be met by its signers,
    /// no signer is listed twice, and the stake target is a percentage.
    pub open spec fn wf(&self) -> bool {
        &&& threshold_in_range(self.threshold, self.signers@.len())
        &&& self.signers@.no_duplicates()
        &&& percentage_in_range(self.stake_target_percentage)
    }

    /// Whether this treasury can be a later state of `earlier`: it is the
    /// same fund, and neither of its totals has shrunk.
    pub open spec fn continues(&self, earlier: &Treasury) -> bool {
        &&& self.name == earlier.name
        &&& self.authority == earlier.authority
        &&& self.created_at == earlier.created_at
        &&& self.total_deposited >= earlier.total_deposited
        &&& self.total_withdrawn >= earlier.total_withdrawn
    }
}

} // verus!
