//! A treasury governance and disbursement control engine.
//!
//! The crate holds the decision logic of a shared fund: who may move how
//! much, under which conditions, and exactly once. Every operation is a
//! bounded computation over plain records; moving value and storing records
//! are left to the caller, who applies the returned state and performs the
//! returned transfer atomically, or does neither.
//!
//! An operation that is refused reports why and leaves every record as it
//! was. Time is never read: the caller hands in `now`.

pub mod batch;
pub mod control;
pub mod error;
pub mod laws;
pub mod milestones;
pub mod payout;
pub mod periods;
pub mod permissions;
pub mod proposals;
pub mod pubkey;
pub mod recurring;
pub mod roles;
pub mod spending;
pub mod staking;
pub mod state;
pub mod streams;
pub mod whitelist;

pub use batch::{batch_transfer, BatchItem};
pub use control::{
    deposit_sol, deposit_tokens, emergency_pause, initialize_treasury, resume_operations,
    update_treasury_config, validate_configuration, withdraw_sol, withdraw_tokens,
};
pub use error::TreasuryManagementError;
pub use milestones::{complete_milestone, create_milestone_payment};
pub use payout::{authorize_payout, Asset, Transfer};
pub use permissions::{
    authorize, authorize_authority, identify_caller, require_capability, Caller, Capability,
};
pub use proposals::{create_proposal, execute_proposal, vote_on_proposal};
pub use pubkey::{all_distinct, contains_key, Pubkey};
pub use recurring::{create_recurring_payment, execute_recurring_payment};
pub use roles::{assign_role, remove_role};
pub use spending::{check_and_record, spending_limit};
pub use staking::{stake_sol_for_yield, unstake_sol};
pub use state::milestone_payment::MilestonePayment;
pub use state::payment_stream::PaymentStream;
pub use state::proposal::{Proposal, ProposalStatus};
pub use state::recurring_payment::RecurringPayment;
pub use state::role::{Role, ROLE_ADMIN, ROLE_CONTRIBUTOR, ROLE_TREASURER};
pub use state::treasury::Treasury;
pub use state::whitelisted_recipient::WhitelistedRecipient;
pub use streams::{
    cancel_payment_stream, create_payment_stream, execute_stream_payment, schedule_fits,
};
pub use whitelist::{
    add_whitelist_recipient, is_whitelisted, remove_whitelist_recipient, set_whitelist_enabled,
};
