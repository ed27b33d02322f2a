//! The ways an operation can be refused.

use vstd::prelude::*;

verus! {

/// Why an operation was refused. A refused operation changes nothing.
#[derive(Clone, Copy, Debug, PartialEq, Eq, Structural)]
pub enum ErrorCode {
    /// More participants than a contract may list.
    TooManyParticipants,
    /// The approval threshold exceeds the number of participants.
    InvalidApprovalThreshold,
    /// The creator is missing from the participant list.
    CreatorMustBeParticipant,
    /// The contract is not in a state that allows the operation.
    ContractNotActive,
    /// The caller is not a participant of the contract.
    NotAParticipant,
    /// The caller has already approved the contract.
    AlreadyApproved,
    /// Only the creator may cancel a contract.
    OnlyCreatorCanCancel,
    /// The contract has not reached its approval threshold.
    ContractNotCompleted,
    /// A record already exists under the key.
    AlreadyExists,
    /// The milestone description is longer than allowed.
    DescriptionTooLong,
    /// Only the contract's creator may escrow funds for it.
    OnlyCreatorCanInitializeEscrow,
    /// The recipient is not a participant of the contract.
    RecipientNotParticipant,
    /// The escrowed amount must be positive.
    InvalidAmount,
    /// The milestone is not in the funded state.
    MilestoneNotFunded,
    /// The milestone has not been marked complete.
    MilestoneNotMarkedComplete,
    /// The caller has already approved the release.
    AlreadyApprovedMilestone,
    /// Fewer approvals than the release needs.
    InsufficientApprovals,
    /// Only the milestone's creator may cancel it.
    OnlyCreatorCanCancelEscrow,
    /// The milestone is past the point where it can be cancelled.
    CannotCancelMilestone,
    /// The attached reference is longer than allowed.
    IpfsHashTooLong,
    /// No reputation record exists for the identity.
    NotInitialized,
    /// The paying account holds less than the amount to move.
    InsufficientFunds,
    /// A counter or a balance would exceed its range.
    ArithmeticOverflow,
    /// The participant list names an identity more than once.
    DuplicateParticipant,
    /// The contract handed in is not the one the milestone was funded for.
    ContractMismatch,
}

impl ErrorCode {
    /// The text of the message that goes with the error.
    pub open spec fn message_text(self) -> Seq<char> {
        match self {
            ErrorCode::TooManyParticipants => "Too many participants (max 10)"@,
            ErrorCode::InvalidApprovalThreshold => "Invalid approval threshold"@,
            ErrorCode::CreatorMustBeParticipant => "Creator must be a participant"@,
            ErrorCode::ContractNotActive => "Contract is not active"@,
            ErrorCode::NotAParticipant => "You are not a participant"@,
            ErrorCode::AlreadyApproved => "You have already approved this contract"@,
            ErrorCode::OnlyCreatorCanCancel => "Only creator can cancel the contract"@,
            ErrorCode::ContractNotCompleted => "Contract is not completed yet"@,
            ErrorCode::AlreadyExists => "Record already exists"@,
            ErrorCode::DescriptionTooLong => "Description too long (max 200 characters)"@,
            ErrorCode::OnlyCreatorCanInitializeEscrow => "Only creator can initialize escrow"@,
            ErrorCode::RecipientNotParticipant => "Recipient must be a participant"@,
            ErrorCode::InvalidAmount => "Invalid amount"@,
            ErrorCode::MilestoneNotFunded => "Milestone is not funded"@,
            ErrorCode::MilestoneNotMarkedComplete => "Milestone not marked complete"@,
            ErrorCode::AlreadyApprovedMilestone => "Already approved this milestone"@,
            ErrorCode::InsufficientApprovals => "Insufficient approvals to release funds"@,
            ErrorCode::OnlyCreatorCanCancelEscrow => "Only creator can cancel escrow"@,
            ErrorCode::CannotCancelMilestone => "Cannot cancel milestone in current status"@,
            ErrorCode::IpfsHashTooLong => "IPFS hash too long (max 46 characters)"@,
            ErrorCode::NotInitialized => "Reputation account is not initialized"@,
            ErrorCode::InsufficientFunds => "Insufficient funds"@,
            ErrorCode::ArithmeticOverflow => "Arithmetic overflow"@,
            ErrorCode::DuplicateParticipant => "Participants must be unique"@,
            ErrorCode::ContractMismatch => "Milestone belongs to another contract"@,
        }
    }

    /// The message that goes with the error, for a person to read.
    pub fn message(&self) -> (text: &'static str)
        ensures
            text@ == self.message_text(),
    {
        match self {
            ErrorCode::TooManyParticipants => "Too many participants (max 10)",
            ErrorCode::InvalidApprovalThreshold => "Invalid approval threshold",
            ErrorCode::CreatorMustBeParticipant => "Creator must be a participant",
            ErrorCode::ContractNotActive => "Contract is not active",
            ErrorCode::NotAParticipant => "You are not a participant",
            ErrorCode::AlreadyApproved => "You have already approved this contract",
            ErrorCode::OnlyCreatorCanCancel => "Only creator can cancel the contract",
            ErrorCode::ContractNotCompleted => "Contract is not completed yet",
            ErrorCode::AlreadyExists => "Record already exists",
            ErrorCode::DescriptionTooLong => "Description too long (max 200 characters)",
            ErrorCode::OnlyCreatorCanInitializeEscrow => "Only creator can initialize escrow",
            ErrorCode::RecipientNotParticipant => "Recipient must be a participant",
            ErrorCode::InvalidAmount => "Invalid amount",
            ErrorCode::MilestoneNotFunded => "Milestone is not funded",
            ErrorCode::MilestoneNotMarkedComplete => "Milestone not marked complete",
            ErrorCode::AlreadyApprovedMilestone => "Already approved this milestone",
            ErrorCode::InsufficientApprovals => "Insufficient approvals to release funds",
            ErrorCode::OnlyCreatorCanCancelEscrow => "Only creator can cancel escrow",
            ErrorCode::CannotCancelMilestone => "Cannot cancel milestone in current status",
            ErrorCode::IpfsHashTooLong => "IPFS hash too long (max 46 characters)",
            ErrorCode::NotInitialized => "Reputation account is not initialized",
            ErrorCode::InsufficientFunds => "Insufficient funds",
            ErrorCode::ArithmeticOverflow => "Arithmetic overflow",
            ErrorCode::DuplicateParticipant => "Participants must be unique",
            ErrorCode::ContractMismatch => "Milestone belongs to another contract",
        }
    }
}

} // verus!
