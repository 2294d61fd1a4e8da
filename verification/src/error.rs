//! The failures an operation can report.

use vstd::prelude::*;

verus! {

/// Why an operation was refused. Every failure is terminal for the call and
/// leaves all records as they were.
#[derive(Clone, Copy, Debug, PartialEq, Eq, Structural)]
pub enum TreasuryManagementError {
    InsufficientFunds,
    InsufficientPermissions,
    InvalidSignatureThreshold,
    TreasuryPaused,
    InvalidPaymentAmount,
    PaymentStreamInactive,
    PaymentStreamNotDue,
    MilestoneAlreadyCompleted,
    ProposalAlreadyExecuted,
    ProposalNotApproved,
    UserAlreadyVoted,
    RecipientNotWhitelisted,
    SpendingLimitExceeded,
    InvalidStakePercentage,
}

impl TreasuryManagementError {
    /// The text shown to a user for each failure.
    pub open spec fn message_text(self) -> Seq<char> {
        match self {
            TreasuryManagementError::InsufficientFunds =>
                "Treasury has insufficient funds for this operation"@,
            TreasuryManagementError::InsufficientPermissions =>
                "User does not have sufficient permissions for this action"@,
            TreasuryManagementError::InvalidSignatureThreshold =>
                "Signature threshold must be greater than 0 and less than or equal to the number of signers"@,
            TreasuryManagementError::TreasuryPaused =>
                "Treasury operations are currently paused"@,
            TreasuryManagementError::InvalidPaymentAmount =>
                "Payment amount must be greater than 0"@,
            TreasuryManagementError::PaymentStreamInactive =>
                "Payment stream is not active"@,
            TreasuryManagementError::PaymentStreamNotDue =>
                "No payment is due for this stream yet"@,
            TreasuryManagementError::MilestoneAlreadyCompleted =>
                "This milestone has already been completed"@,
            TreasuryManagementError::ProposalAlreadyExecuted =>
                "This proposal has already been executed"@,
            TreasuryManagementError::ProposalNotApproved =>
                "This proposal has not been approved"@,
            TreasuryManagementError::UserAlreadyVoted =>
                "User has already voted on this proposal"@,
            TreasuryManagementError::RecipientNotWhitelisted =>
                "Recipient is not on the whitelist"@,
            TreasuryManagementError::SpendingLimitExceeded =>
                "This operation would exceed your spending limit"@,
            TreasuryManagementError::InvalidStakePercentage =>
                "Stake target percentage must be between 0 and 100"@,
        }
    }

    /// The message of this failure.
    pub fn message(&self) -> (text: &'static str)
        ensures
            text@ == self.message_text(),
    {
        match self {
            TreasuryManagementError::InsufficientFunds =>
                "Treasury has insufficient funds for this operation",
            TreasuryManagementError::InsufficientPermissions =>
                "User does not have sufficient permissions for this action",
            TreasuryManagementError::InvalidSignatureThreshold =>
                "Signature threshold must be greater than 0 and less than or equal to the number of signers",
            TreasuryManagementError::TreasuryPaused =>
                "Treasury operations are currently paused",
            TreasuryManagementError::InvalidPaymentAmount =>
                "Payment amount must be greater than 0",
            TreasuryManagementError::PaymentStreamInactive =>
                "Payment stream is not active",
            TreasuryManagementError::PaymentStreamNotDue =>
                "No payment is due for this stream yet",
            TreasuryManagementError::MilestoneAlreadyCompleted =>
                "This milestone has already been completed",
            TreasuryManagementError::ProposalAlreadyExecuted =>
                "This proposal has already been executed",
            TreasuryManagementError::ProposalNotApproved =>
                "This proposal has not been approved",
            TreasuryManagementError::UserAlreadyVoted =>
                "User has already voted on this proposal",
            TreasuryManagementError::RecipientNotWhitelisted =>
                "Recipient is not on the whitelist",
            TreasuryManagementError::SpendingLimitExceeded =>
                "This operation would exceed your spending limit",
            TreasuryManagementError::InvalidStakePercentage =>
                "Stake target percentage must be between 0 and 100",
        }
    }
}

} // verus!
