//! Giving roles and taking them away.

use vstd::prelude::*;
use crate::error::TreasuryManagementError;
use crate::permissions::{authorize, is_authorized, Caller, Capability};
use crate::state::role::Role;

verus! {

/// Makes the role of a user: of tier `role_type`, with exactly the
/// capabilities given, and with nothing spent in a period that starts at
/// `now`. The authority of the treasury may do so, and whoever holds the
/// capability to manage roles; a paused treasury does not hinder it.
pub fn assign_role(
    caller: &Caller,
    role_type: u8,
    can_execute_payments: bool,
    can_create_streams: bool,
    can_manage_roles: bool,
    can_view_treasury: bool,
    can_propose: bool,
    can_vote: bool,
    now: i64,
) -> (outcome: Result<Role, TreasuryManagementError>)
    ensures
        if is_authorized(*caller, Capability::ManageRoles) {
            outcome == Ok::<Role, TreasuryManagementError>(
                (Role {
                    role_type,
                    can_execute_payments,
                    can_create_streams,
                    can_manage_roles,
                    can_view_treasury,
                    can_propose,
                    can_vote,
                    spending_limit_used: 0,
                    last_limit_reset: now,
                }),
            )
        } else {
            outcome == Err::<Role, TreasuryManagementError>(
                TreasuryManagementError::InsufficientPermissions,
            )
        },
{
    match authorize(caller, Capability::ManageRoles) {
        Ok(()) => Ok(
            Role {
                role_type,
                can_execute_payments,
                can_create_streams,
                can_manage_roles,
                can_view_treasury,
                can_propose,
                can_vote,
                spending_limit_used: 0,
                last_limit_reset: now,
            },
        ),
        Err(refusal) => Err(refusal),
    }
}

/// Decides whether `role` may be taken from its holder: by the authority of
/// the treasury, or by whoever holds the capability to manage roles. The
/// role is returned for removal.
pub fn remove_role(caller: &Caller, role: Role) -> (outcome: Result<Role, TreasuryManagementError>)
    ensures
        if is_authorized(*caller, Capability::ManageRoles) {
            outcome == Ok::<Role, TreasuryManagementError>(role)
        } else {
            outcome == Err::<Role, TreasuryManagementError>(
                TreasuryManagementError::InsufficientPermissions,
            )
        },
{
    match authorize(caller, Capability::ManageRoles) {
        Ok(()) => Ok(role),
        Err(refusal) => Err(refusal),
    }
}

} // verus!
