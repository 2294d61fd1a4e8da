//! What one user may do in one treasury, and how much it has spent.

use vstd::prelude::*;

verus! {

/// The tier number of an administrator.
pub const ROLE_ADMIN: u8 = 0;

/// The tier number of a treasurer.
pub const ROLE_TREASURER: u8 = 1;

/// The tier number of a contributor.
pub const ROLE_CONTRIBUTOR: u8 = 2;

/// The role of one user in one treasury. The six capabilities are
/// independent of each other and of the tier: the tier only selects the
/// spending limit.
#[derive(Clone, Copy, Debug, PartialEq, Eq, Structural)]
pub struct Role {
    pub role_type: u8,
    pub can_execute_payments: bool,
    pub can_create_streams: bool,
    pub can_manage_roles: bool,
    pub can_view_treasury: bool,
    pub can_propose: bool,
    pub can_vote: bool,
    /// What the role has spent since `last_limit_reset`.
    pub spending_limit_used: u64,
    pub last_limit_reset: i64,
}

} // verus!
