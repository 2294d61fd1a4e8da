//! The spending limit of a role: what it has used within the current reset
//! period, counted against the limit of its tier.

use vstd::prelude::*;
use crate::error::TreasuryManagementError;
use crate::state::role::{Role, ROLE_ADMIN, ROLE_TREASURER};
use crate::state::treasury::Treasury;

verus! {

/// The most that a role of tier `role_type` may spend within one reset
/// period. A tier that is neither administrator nor treasurer spends under
/// the contributor limit.
pub open spec fn limit_for(treasury: &Treasury, role_type: u8) -> u64 {
    if role_type == ROLE_ADMIN {
        treasury.admin_limit
    } else if role_type == ROLE_TREASURER {
        treasury.treasurer_limit
    } else {
        treasury.contributor_limit
    }
}

/// Whether a whole reset period has passed at `now` since the counter of
/// `role` was last reset.
pub open spec fn reset_is_due(role: &Role, reset_period: u64, now: i64) -> bool {
    now - role.last_limit_reset >= reset_period
}

/// What `role` has spent within the reset period that holds `now`: nothing
/// if the counter is due for a reset.
pub open spec fn spent_in_period(role: &Role, reset_period: u64, now: i64) -> u64 {
    if reset_is_due(role, reset_period, now) {
        0
    } else {
        role.spending_limit_used
    }
}

/// Whether `role` can spend `amount` more at `now` without passing the
/// limit of its tier.
pub open spec fn within_limit(treasury: &Treasury, role: &Role, amount: int, now: i64) -> bool {
    spent_in_period(role, treasury.reset_period, now) + amount <= limit_for(
        treasury,
        role.role_type,
    )
}

/// The role after it has spent `amount` at `now`: the counter is reset
/// first if that is due, then `amount` is added.
pub open spec fn charged(treasury: &Treasury, role: &Role, amount: int, now: i64) -> Role {
    Role {
        spending_limit_used: (spent_in_period(role, treasury.reset_period, now) + amount) as u64,
        last_limit_reset: if reset_is_due(role, treasury.reset_period, now) {
            now
        } else {
            role.last_limit_reset
        },
        ..*role
    }
}

/// The spending limit of a role of tier `role_type`.
pub fn spending_limit(treasury: &Treasury, role_type: u8) -> (limit: u64)
    ensures
        limit == limit_for(treasury, role_type),
{
    if role_type == ROLE_ADMIN {
        treasury.admin_limit
    } else if role_type == ROLE_TREASURER {
        treasury.treasurer_limit
    } else {
        treasury.contributor_limit
    }
}

/// Counts `amount` against the spending limit of `role`, after the reset of
/// the counter if one is due. Where the limit would be passed, the role is
/// left as it was, without the reset.
pub fn check_and_record(
    treasury: &Treasury,
    role: &mut Role,
    amount: u64,
    now: i64,
) -> (verdict: Result<(), TreasuryManagementError>)
    ensures
        if within_limit(treasury, old(role), amount as int, now) {
            &&& verdict is Ok
            &&& *final(role) == charged(treasury, old(role), amount as int, now)
        } else {
            &&& verdict == Err::<(), TreasuryManagementError>(
                TreasuryManagementError::SpendingLimitExceeded,
            )
            &&& *final(role) == *old(role)
        },
        verdict is Ok ==> final(role).spending_limit_used <= limit_for(
            treasury,
            final(role).role_type,
        ),
{
    let limit: u64 = spending_limit(treasury, role.role_type);
    let due: bool = now as i128 - role.last_limit_reset as i128 >= treasury.reset_period as i128;
    let spent: u64 = if due { 0 } else { role.spending_limit_used };
    if spent > limit || amount > limit - spent {
        return Err(TreasuryManagementError::SpendingLimitExceeded);
    }
    role.spending_limit_used = spent + amount;
    if due {
        role.last_limit_reset = now;
    }
    Ok(())
}

} // verus!
