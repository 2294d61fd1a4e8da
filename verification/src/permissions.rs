//! Who may do what: capabilities of roles, and the authority's own rights.

use vstd::prelude::*;
use crate::error::TreasuryManagementError;
use crate::pubkey::Pubkey;
use crate::state::role::Role;
use crate::state::treasury::Treasury;

verus! {

/// One of the six things a role can be allowed to do.
#[derive(Clone, Copy, Debug, PartialEq, Eq, Structural)]
pub enum Capability {
    ExecutePayments,
    CreateStreams,
    ManageRoles,
    ViewTreasury,
    Propose,
    Vote,
}

impl Capability {
    /// Whether the capability guards the configuration of the treasury, which
    /// its authority may always change.
    pub open spec fn is_configuration_level(self) -> bool {
        self == Capability::ManageRoles
    }
}

impl Role {
    /// Whether the role has been given `capability`. Only the flag counts:
    /// no tier implies a capability.
    pub open spec fn holds(&self, capability: Capability) -> bool {
        match capability {
            Capability::ExecutePayments => self.can_execute_payments,
            Capability::CreateStreams => self.can_create_streams,
            Capability::ManageRoles => self.can_manage_roles,
            Capability::ViewTreasury => self.can_view_treasury,
            Capability::Propose => self.can_propose,
            Capability::Vote => self.can_vote,
        }
    }

    /// Tests whether the role has been given `capability`.
    pub fn has_capability(&self, capability: Capability) -> (held: bool)
        ensures
            held == self.holds(capability),
    {
        match capability {
            Capability::ExecutePayments => self.can_execute_payments,
            Capability::CreateStreams => self.can_create_streams,
            Capability::ManageRoles => self.can_manage_roles,
            Capability::ViewTreasury => self.can_view_treasury,
            Capability::Propose => self.can_propose,
            Capability::Vote => self.can_vote,
        }
    }
}

/// Who asks for a change of configuration.
#[derive(Clone, Copy, Debug, PartialEq, Eq, Structural)]
pub enum Caller {
    /// The authority of the treasury itself.
    TreasuryAuthority,
    /// Anyone else, with the role they hold in the treasury.
    RoleHolder(Role),
}

/// Who `signer` is to `treasury`, given the role recorded for the signer, if
/// any: the authority, whatever its role; a role holder; or nobody.
pub open spec fn caller_of(
    treasury: &Treasury,
    signer: Pubkey,
    role: Option<Role>,
) -> Option<Caller> {
    if signer == treasury.authority {
        Some(Caller::TreasuryAuthority)
    } else {
        match role {
            Some(held) => Some(Caller::RoleHolder(held)),
            None => None,
        }
    }
}

/// Finds out who `signer` is to `treasury`.
pub fn identify_caller(
    treasury: &Treasury,
    signer: &Pubkey,
    role: Option<Role>,
) -> (caller: Option<Caller>)
    ensures
        caller == caller_of(treasury, *signer, role),
{
    if *signer == treasury.authority {
        Some(Caller::TreasuryAuthority)
    } else {
        match role {
            Some(held) => Some(Caller::RoleHolder(held)),
            None => None,
        }
    }
}

/// Whether `caller` may do what `capability` guards: the authority where the
/// capability guards the configuration, a role holder where the role holds
/// the capability.
pub open spec fn is_authorized(caller: Caller, capability: Capability) -> bool {
    match caller {
        Caller::TreasuryAuthority => capability.is_configuration_level(),
        Caller::RoleHolder(role) => role.holds(capability),
    }
}

/// Allows or denies what `capability` guards. Nothing is changed.
pub fn authorize(
    caller: &Caller,
    capability: Capability,
) -> (verdict: Result<(), TreasuryManagementError>)
    ensures
        if is_authorized(*caller, capability) {
            verdict is Ok
        } else {
            verdict == Err::<(), TreasuryManagementError>(
                TreasuryManagementError::InsufficientPermissions,
            )
        },
{
    let allowed = match caller {
        Caller::TreasuryAuthority => match capability {
            Capability::ManageRoles => true,
            _ => false,
        },
        Caller::RoleHolder(role) => role.has_capability(capability),
    };
    if allowed {
        Ok(())
    } else {
        Err(TreasuryManagementError::InsufficientPermissions)
    }
}

/// Allows what only the authority of the treasury may do, and denies it to
/// everyone else.
pub fn authorize_authority(caller: &Caller) -> (verdict: Result<(), TreasuryManagementError>)
    ensures
        if *caller == Caller::TreasuryAuthority {
            verdict is Ok
        } else {
            verdict == Err::<(), TreasuryManagementError>(
                TreasuryManagementError::InsufficientPermissions,
            )
        },
{
    match caller {
        Caller::TreasuryAuthority => Ok(()),
        Caller::RoleHolder(_) => Err(TreasuryManagementError::InsufficientPermissions),
    }
}

/// Allows what `capability` guards to a role that holds it.
pub fn require_capability(
    role: &Role,
    capability: Capability,
) -> (verdict: Result<(), TreasuryManagementError>)
    ensures
        if role.holds(capability) {
            verdict is Ok
        } else {
            verdict == Err::<(), TreasuryManagementError>(
                TreasuryManagementError::InsufficientPermissions,
            )
        },
{
    if role.has_capability(capability) {
        Ok(())
    } else {
        Err(TreasuryManagementError::InsufficientPermissions)
    }
}

} // verus!
