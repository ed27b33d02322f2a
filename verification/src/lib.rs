//! Multi-party agreements with quorum approval and milestone escrow.
//!
//! Three record kinds live on a ledger that orders and commits every
//! operation as one indivisible transaction: a reputation record per identity,
//! a contract per (id, creator), and an escrow milestone per (contract id,
//! milestone id). Each operation here takes the records and balances it
//! touches, checks its preconditions, and either commits every effect or
//! reports one specific error and changes nothing.
//!
//! The caller is the ledger's boundary: it has authenticated the identity
//! that acts, found the records under their keys, and read the clock.

pub mod contract;
pub mod errors;
pub mod escrow;
pub mod identity;
pub mod laws;
pub mod reputation;
pub mod text;

pub use crate::contract::approve_contract;
pub use crate::contract::cancel_contract;
pub use crate::contract::initialize_contract;
pub use crate::contract::mark_contract_complete;
pub use crate::contract::update_contract_ipfs;
pub use crate::contract::ApproveContract;
pub use crate::contract::CancelContract;
pub use crate::contract::Contract;
pub use crate::contract::ContractStatus;
pub use crate::contract::InitializeContract;
pub use crate::contract::MarkContractComplete;
pub use crate::contract::UpdateContractIpfs;
pub use crate::errors::ErrorCode;
pub use crate::escrow::approve_milestone_release;
pub use crate::escrow::cancel_escrow_milestone;
pub use crate::escrow::initialize_escrow_milestone;
pub use crate::escrow::mark_milestone_complete;
pub use crate::escrow::release_escrow_funds;
pub use crate::escrow::ApproveMilestoneRelease;
pub use crate::escrow::CancelEscrowMilestone;
pub use crate::escrow::EscrowMilestone;
pub use crate::escrow::InitializeEscrowMilestone;
pub use crate::escrow::MarkMilestoneComplete;
pub use crate::escrow::MilestoneStatus;
pub use crate::escrow::ReleaseEscrowFunds;
pub use crate::reputation::initialize_reputation;
pub use crate::reputation::InitializeReputation;
pub use crate::reputation::UserReputation;
