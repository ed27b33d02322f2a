//! The agreement state machine: creation, peer approval, completion,
//! cancellation and the attached reference.

use crate::errors::ErrorCode;
use crate::identity::all_distinct;
use crate::identity::contains_key;
use crate::identity::same_key;
use crate::reputation::record_activity;
use crate::reputation::record_activity_outcome;
use crate::reputation::Activity;
use crate::reputation::UserReputation;
use crate::text::lemma_empty_text_has_no_bytes;
use crate::text::utf8_len;
use anchor_lang::prelude::Pubkey;
use vstd::prelude::*;

verus! {

/// Where a contract stands. `Completed` and `Cancelled` are final.
#[derive(Clone, Copy, Debug, PartialEq, Eq, Structural)]
pub enum ContractStatus {
    Active,
    Completed,
    Cancelled,
}

/// An agreement between the listed participants.
#[derive(Debug, PartialEq, Eq)]
pub struct Contract {
    pub contract_id: u64,
    pub creator: Pubkey,
    pub participants: Vec<Pubkey>,
    pub status: ContractStatus,
    pub required_approvals: u8,
    pub current_approvals: u8,
    pub approvers: Vec<Pubkey>,
    pub ipfs_hash: String,
    pub created_at: i64,
    pub bump: u8,
}

impl Contract {
    /// The most participants a contract may list.
    pub const MAX_PARTICIPANTS: usize = 10;

    /// The most bytes an attached reference may have.
    pub const MAX_REFERENCE_BYTES: usize = 46;
}

impl Clone for Contract {
    fn clone(&self) -> (copy: Self)
        ensures
            copy@ == self@,
    {
        Contract {
            contract_id: self.contract_id,
            creator: self.creator,
            participants: self.participants.clone(),
            status: self.status,
            required_approvals: self.required_approvals,
            current_approvals: self.current_approvals,
            approvers: self.approvers.clone(),
            ipfs_hash: self.ipfs_hash.clone(),
            created_at: self.created_at,
            bump: self.bump,
        }
    }
}

/// A contract as a mathematical value.
pub struct ContractView {
    pub contract_id: u64,
    pub creator: Pubkey,
    pub participants: Seq<Pubkey>,
    pub status: ContractStatus,
    pub required_approvals: u8,
    pub current_approvals: u8,
    pub approvers: Seq<Pubkey>,
    pub ipfs_hash: Seq<char>,
    pub created_at: i64,
    pub bump: u8,
}

impl View for Contract {
    type V = ContractView;

    open spec fn view(&self) -> ContractView {
        ContractView {
            contract_id: self.contract_id,
            creator: self.creator,
            participants: self.participants@,
            status: self.status,
            required_approvals: self.required_approvals,
            current_approvals: self.current_approvals,
            approvers: self.approvers@,
            ipfs_hash: self.ipfs_hash@,
            created_at: self.created_at,
            bump: self.bump,
        }
    }
}

impl ContractView {
    /// What holds of every contract that the operations of this module made:
    /// the participants are distinct, within their cap, and the creator is
    /// one of them, the threshold is within the list, the approvers are
    /// distinct participants and the approval count is their number, the
    /// reference is within its cap, and the contract is completed exactly
    /// when it has approvals and these reach the threshold.
    pub open spec fn wf(self) -> bool {
        &&& self.participants.len() <= Contract::MAX_PARTICIPANTS
        &&& self.participants.no_duplicates()
        &&& self.required_approvals <= self.participants.len()
        &&& self.participants.contains(self.creator)
        &&& self.approvers.no_duplicates()
        &&& forall|i: int|
            0 <= i < self.approvers.len() ==> self.participants.contains(#[trigger] self.approvers[i])
        &&& self.current_approvals == self.approvers.len()
        &&& utf8_len(self.ipfs_hash) <= Contract::MAX_REFERENCE_BYTES
        &&& self.status == ContractStatus::Completed ==> self.reached_threshold()
        &&& self.status == ContractStatus::Active ==> !self.reached_threshold()
    }

    /// The two contracts agree in all that is fixed at creation.
    pub open spec fn same_terms(self, other: ContractView) -> bool {
        &&& self.contract_id == other.contract_id
        &&& self.creator == other.creator
        &&& self.participants == other.participants
        &&& self.required_approvals == other.required_approvals
        &&& self.created_at == other.created_at
        &&& self.bump == other.bump
    }

    /// At least one approval, and as many as the threshold asks for.
    pub open spec fn reached_threshold(self) -> bool {
        self.current_approvals > 0 && self.current_approvals >= self.required_approvals
    }

    /// The contract that a successful creation stores.
    pub open spec fn fresh(
        contract_id: u64,
        creator: Pubkey,
        participants: Seq<Pubkey>,
        required_approvals: u8,
        now: i64,
        bump: u8,
    ) -> ContractView {
        ContractView {
            contract_id,
            creator,
            participants,
            status: ContractStatus::Active,
            required_approvals,
            current_approvals: 0,
            approvers: Seq::empty(),
            ipfs_hash: Seq::empty(),
            created_at: now,
            bump,
        }
    }

    /// Why a contract with these terms cannot be created by `creator`, if it
    /// cannot.
    pub open spec fn terms_refused(
        creator: Pubkey,
        participants: Seq<Pubkey>,
        required_approvals: u8,
    ) -> Option<ErrorCode> {
        if participants.len() > Contract::MAX_PARTICIPANTS {
            Some(ErrorCode::TooManyParticipants)
        } else if required_approvals > participants.len() {
            Some(ErrorCode::InvalidApprovalThreshold)
        } else if !participants.contains(creator) {
            Some(ErrorCode::CreatorMustBeParticipant)
        } else if !participants.no_duplicates() {
            Some(ErrorCode::DuplicateParticipant)
        } else {
            None
        }
    }

    /// The contract after `approver` approves it, or why they cannot. Whoever
    /// has approved is told so, whatever has become of the contract since.
    pub open spec fn approve(self, approver: Pubkey) -> Result<ContractView, ErrorCode> {
        if self.approvers.contains(approver) {
            Err(ErrorCode::AlreadyApproved)
        } else if self.status != ContractStatus::Active {
            Err(ErrorCode::ContractNotActive)
        } else if !self.participants.contains(approver) {
            Err(ErrorCode::NotAParticipant)
        } else if self.current_approvals == u8::MAX {
            Err(ErrorCode::ArithmeticOverflow)
        } else {
            let count = (self.current_approvals + 1) as u8;
            Ok(
                ContractView {
                    approvers: self.approvers.push(approver),
                    current_approvals: count,
                    status: if count >= self.required_approvals {
                        ContractStatus::Completed
                    } else {
                        ContractStatus::Active
                    },
                    ..self
                },
            )
        }
    }

    /// The contract after `caller` cancels it, or why they cannot.
    pub open spec fn cancel(self, caller: Pubkey) -> Result<ContractView, ErrorCode> {
        if self.status != ContractStatus::Active {
            Err(ErrorCode::ContractNotActive)
        } else if self.creator != caller {
            Err(ErrorCode::OnlyCreatorCanCancel)
        } else {
            Ok(ContractView { status: ContractStatus::Cancelled, ..self })
        }
    }

    /// The contract after `caller` attaches `reference` to it, or why they
    /// cannot.
    pub open spec fn attach(self, caller: Pubkey, reference: Seq<char>) -> Result<
        ContractView,
        ErrorCode,
    > {
        if utf8_len(reference) > Contract::MAX_REFERENCE_BYTES {
            Err(ErrorCode::IpfsHashTooLong)
        } else if !self.participants.contains(caller) {
            Err(ErrorCode::NotAParticipant)
        } else if self.status == ContractStatus::Cancelled {
            Err(ErrorCode::ContractNotActive)
        } else {
            Ok(ContractView { ipfs_hash: reference, ..self })
        }
    }
}

/// The records an `initialize_contract` call works on.
#[derive(Debug, PartialEq, Eq)]
pub struct InitializeContract {
    /// What the ledger holds under the key of the new contract.
    pub contract: Option<Contract>,
    /// What the ledger holds under the creator's reputation key.
    pub creator_reputation: Option<UserReputation>,
    /// The identity creating the contract, authenticated by the caller.
    pub creator: Pubkey,
}

impl Clone for InitializeContract {
    fn clone(&self) -> (copy: Self)
        ensures
            (copy.contract is Some) == (self.contract is Some),
            self.contract is Some ==> copy.contract->0@ == self.contract->0@,
            copy.creator_reputation == self.creator_reputation,
            copy.creator == self.creator,
    {
        InitializeContract {
            contract: match &self.contract {
                Some(record) => Some(record.clone()),
                None => None,
            },
            creator_reputation: self.creator_reputation,
            creator: self.creator,
        }
    }
}

/// The records an `approve_contract` call works on.
#[derive(Debug, PartialEq, Eq)]
pub struct ApproveContract {
    pub contract: Contract,
    /// What the ledger holds under the approver's reputation key.
    pub approver_reputation: Option<UserReputation>,
    /// The identity approving, authenticated by the caller.
    pub approver: Pubkey,
}

impl Clone for ApproveContract {
    fn clone(&self) -> (copy: Self)
        ensures
            copy.contract@ == self.contract@,
            copy.approver_reputation == self.approver_reputation,
            copy.approver == self.approver,
    {
        ApproveContract {
            contract: self.contract.clone(),
            approver_reputation: self.approver_reputation,
            approver: self.approver,
        }
    }
}

/// The records a `mark_contract_complete` call works on.
#[derive(Debug, PartialEq, Eq)]
pub struct MarkContractComplete {
    pub contract: Contract,
    /// What the ledger holds under the participant's reputation key.
    pub participant_reputation: Option<UserReputation>,
    /// The identity whose completion count is to grow. Nothing here checks
    /// that the caller is that identity, nor that it takes part in the
    /// contract.
    pub participant: Pubkey,
}

impl Clone for MarkContractComplete {
    fn clone(&self) -> (copy: Self)
        ensures
            copy.contract@ == self.contract@,
            copy.participant_reputation == self.participant_reputation,
            copy.participant == self.participant,
    {
        MarkContractComplete {
            contract: self.contract.clone(),
            participant_reputation: self.participant_reputation,
            participant: self.participant,
        }
    }
}

/// The records a `cancel_contract` call works on.
#[derive(Debug, PartialEq, Eq)]
pub struct CancelContract {
    pub contract: Contract,
    /// The identity asking for the cancellation, authenticated by the
    /// caller.
    pub creator: Pubkey,
}

impl Clone for CancelContract {
    fn clone(&self) -> (copy: Self)
        ensures
            copy.contract@ == self.contract@,
            copy.creator == self.creator,
    {
        CancelContract {
            contract: self.contract.clone(),
            creator: self.creator,
        }
    }
}

/// The records an `update_contract_ipfs` call works on.
#[derive(Debug, PartialEq, Eq)]
pub struct UpdateContractIpfs {
    pub contract: Contract,
    /// The identity attaching the reference, authenticated by the caller.
    pub updater: Pubkey,
}

impl Clone for UpdateContractIpfs {
    fn clone(&self) -> (copy: Self)
        ensures
            copy.contract@ == self.contract@,
            copy.updater == self.updater,
    {
        UpdateContractIpfs {
            contract: self.contract.clone(),
            updater: self.updater,
        }
    }
}

/// What `initialize_contract` stores, or why it refuses: the terms are
/// checked first, then that the key is free, then the creator's bookkeeping.
pub open spec fn initialize_contract_outcome(
    ctx: InitializeContract,
    contract_id: u64,
    participants: Seq<Pubkey>,
    required_approvals: u8,
    now: i64,
    bump: u8,
) -> Result<(ContractView, UserReputation), ErrorCode> {
    match ContractView::terms_refused(ctx.creator, participants, required_approvals) {
        Some(e) => Err(e),
        None => if ctx.contract is Some {
            Err(ErrorCode::AlreadyExists)
        } else {
            match record_activity_outcome(
                ctx.creator_reputation,
                ctx.creator,
                Activity::ContractCreated,
                now,
            ) {
                Err(e) => Err(e),
                Ok(reputation) => Ok(
                    (
                        ContractView::fresh(
                            contract_id,
                            ctx.creator,
                            participants,
                            required_approvals,
                            now,
                            bump,
                        ),
                        reputation,
                    ),
                ),
            }
        },
    }
}

/// Creates an active contract without approvals between `participants`, and
/// counts it in the creator's reputation.
///
/// Refused with `TooManyParticipants`, `InvalidApprovalThreshold`,
/// `CreatorMustBeParticipant`, `DuplicateParticipant`, `AlreadyExists`, or
/// what the creator's bookkeeping reports, in this order.
pub fn initialize_contract(
    ctx: &mut InitializeContract,
    contract_id: u64,
    participants: Vec<Pubkey>,
    required_approvals: u8,
    now: i64,
    bump: u8,
) -> (r: Result<(), ErrorCode>)
    ensures
        final(ctx).creator == old(ctx).creator,
        match initialize_contract_outcome(
            *old(ctx),
            contract_id,
            participants@,
            required_approvals,
            now,
            bump,
        ) {
            Ok((contract, reputation)) => {
                &&& r is Ok
                &&& final(ctx).contract is Some
                &&& final(ctx).contract->0@ == contract
                &&& final(ctx).creator_reputation == Some(reputation)
            },
            Err(e) => r == Err::<(), ErrorCode>(e) && *final(ctx) == *old(ctx),
        },
        r is Ok ==> final(ctx).contract->0@.wf(),
{
    proof {
        lemma_empty_text_has_no_bytes();
    }
    if participants.len() > Contract::MAX_PARTICIPANTS {
        return Err(ErrorCode::TooManyParticipants);
    }
    if required_approvals as usize > participants.len() {
        return Err(ErrorCode::InvalidApprovalThreshold);
    }
    if !contains_key(&participants, &ctx.creator) {
        return Err(ErrorCode::CreatorMustBeParticipant);
    }
    if !all_distinct(&participants) {
        return Err(ErrorCode::DuplicateParticipant);
    }
    if ctx.contract.is_some() {
        return Err(ErrorCode::AlreadyExists);
    }
    let reputation = match record_activity(
        ctx.creator_reputation,
        ctx.creator,
        Activity::ContractCreated,
        now,
    ) {
        Ok(reputation) => reputation,
        Err(e) => { return Err(e); },
    };
    ctx.contract = Some(
        Contract {
            contract_id,
            creator: ctx.creator,
            participants,
            status: ContractStatus::Active,
            required_approvals,
            current_approvals: 0,
            approvers: Vec::new(),
            ipfs_hash: String::new(),
            created_at: now,
            bump,
        },
    );
    ctx.creator_reputation = Some(reputation);
    Ok(())
}

/// The contract and the approver's record after an approval by `approver`,
/// whose reputation slot holds `reputation`, at time `now`, or why it is
/// refused: the contract's own rules first, then the bookkeeping.
pub open spec fn approval_outcome(
    contract: ContractView,
    reputation: Option<UserReputation>,
    approver: Pubkey,
    now: i64,
) -> Result<(ContractView, UserReputation), ErrorCode> {
    match contract.approve(approver) {
        Err(e) => Err(e),
        Ok(approved) => match record_activity_outcome(
            reputation,
            approver,
            Activity::ContractApproved,
            now,
        ) {
            Err(e) => Err(e),
            Ok(record) => Ok((approved, record)),
        },
    }
}

/// The contract and the approver's record after `approve_contract`, or why
/// it refuses.
pub open spec fn approve_contract_outcome(ctx: ApproveContract, now: i64) -> Result<
    (ContractView, UserReputation),
    ErrorCode,
> {
    approval_outcome(ctx.contract@, ctx.approver_reputation, ctx.approver, now)
}

/// Records the approval of `ctx.approver`, counts it in their reputation,
/// and completes the contract in the same call when the approvals reach the
/// threshold.
///
/// Refused with `AlreadyApproved`, `ContractNotActive`, `NotAParticipant`,
/// `ArithmeticOverflow` for the approval count, or what the approver's
/// bookkeeping reports, in this order.
pub fn approve_contract(ctx: &mut ApproveContract, now: i64) -> (r: Result<(), ErrorCode>)
    ensures
        final(ctx).approver == old(ctx).approver,
        match approve_contract_outcome(*old(ctx), now) {
            Ok((contract, reputation)) => {
                &&& r is Ok
                &&& final(ctx).contract@ == contract
                &&& final(ctx).approver_reputation == Some(reputation)
            },
            Err(e) => r == Err::<(), ErrorCode>(e) && *final(ctx) == *old(ctx),
        },
        old(ctx).contract@.wf() ==> final(ctx).contract@.wf(),
        old(ctx).contract.current_approvals == old(ctx).contract.approvers@.len()
            ==> final(ctx).contract.current_approvals == final(ctx).contract.approvers@.len(),
        old(ctx).contract.approvers@.contains(old(ctx).approver) ==> r == Err::<(), ErrorCode>(
            ErrorCode::AlreadyApproved,
        ),
        old(ctx).contract.status != ContractStatus::Active ==> r is Err,
        r is Ok ==> final(ctx).contract.approvers@.contains(old(ctx).approver),
{
    if contains_key(&ctx.contract.approvers, &ctx.approver) {
        return Err(ErrorCode::AlreadyApproved);
    }
    match ctx.contract.status {
        ContractStatus::Active => {},
        _ => { return Err(ErrorCode::ContractNotActive); },
    }
    if !contains_key(&ctx.contract.participants, &ctx.approver) {
        return Err(ErrorCode::NotAParticipant);
    }
    if ctx.contract.current_approvals == u8::MAX {
        return Err(ErrorCode::ArithmeticOverflow);
    }
    let reputation = match record_activity(
        ctx.approver_reputation,
        ctx.approver,
        Activity::ContractApproved,
        now,
    ) {
        Ok(reputation) => reputation,
        Err(e) => { return Err(e); },
    };
    ctx.contract.approvers.push(ctx.approver);
    assert(ctx.contract.approvers@.last() == ctx.approver);
    ctx.contract.current_approvals = ctx.contract.current_approvals + 1;
    if ctx.contract.current_approvals >= ctx.contract.required_approvals {
        ctx.contract.status = ContractStatus::Completed;
    }
    ctx.approver_reputation = Some(reputation);
    Ok(())
}

/// The participant's record after `mark_contract_complete`, or why it
/// refuses.
pub open spec fn mark_contract_complete_outcome(ctx: MarkContractComplete, now: i64) -> Result<
    UserReputation,
    ErrorCode,
> {
    if ctx.contract@.status != ContractStatus::Completed {
        Err(ErrorCode::ContractNotCompleted)
    } else {
        record_activity_outcome(
            ctx.participant_reputation,
            ctx.participant,
            Activity::ContractCompleted,
            now,
        )
    }
}

/// Counts a completed contract in the reputation of `ctx.participant`.
///
/// The contract itself does not change. Nothing keeps the same participant
/// from being counted again for the same contract: every call on a completed
/// contract adds one.
///
/// Refused with `ContractNotCompleted`, or what the participant's bookkeeping
/// reports.
pub fn mark_contract_complete(ctx: &mut MarkContractComplete, now: i64) -> (r: Result<
    (),
    ErrorCode,
>)
    ensures
        final(ctx).contract == old(ctx).contract,
        final(ctx).participant == old(ctx).participant,
        match mark_contract_complete_outcome(*old(ctx), now) {
            Ok(reputation) => r is Ok && final(ctx).participant_reputation == Some(reputation),
            Err(e) => r == Err::<(), ErrorCode>(e) && *final(ctx) == *old(ctx),
        },
{
    match ctx.contract.status {
        ContractStatus::Completed => {},
        _ => { return Err(ErrorCode::ContractNotCompleted); },
    }
    let reputation = match record_activity(
        ctx.participant_reputation,
        ctx.participant,
        Activity::ContractCompleted,
        now,
    ) {
        Ok(reputation) => reputation,
        Err(e) => { return Err(e); },
    };
    ctx.participant_reputation = Some(reputation);
    Ok(())
}

/// Cancels an active contract on its creator's request. No reputation record
/// is touched.
///
/// Refused with `ContractNotActive`, then `OnlyCreatorCanCancel`.
pub fn cancel_contract(ctx: &mut CancelContract) -> (r: Result<(), ErrorCode>)
    ensures
        final(ctx).creator == old(ctx).creator,
        match old(ctx).contract@.cancel(old(ctx).creator) {
            Ok(contract) => r is Ok && final(ctx).contract@ == contract,
            Err(e) => r == Err::<(), ErrorCode>(e) && *final(ctx) == *old(ctx),
        },
        old(ctx).contract@.wf() ==> final(ctx).contract@.wf(),
        old(ctx).contract.status != ContractStatus::Active ==> r == Err::<(), ErrorCode>(
            ErrorCode::ContractNotActive,
        ),
{
    match ctx.contract.status {
        ContractStatus::Active => {},
        _ => { return Err(ErrorCode::ContractNotActive); },
    }
    if !same_key(&ctx.contract.creator, &ctx.creator) {
        return Err(ErrorCode::OnlyCreatorCanCancel);
    }
    ctx.contract.status = ContractStatus::Cancelled;
    Ok(())
}

/// Replaces the reference attached to a contract that is not cancelled. The
/// last writer wins.
///
/// Refused with `IpfsHashTooLong`, `NotAParticipant`, then
/// `ContractNotActive` for a cancelled contract.
pub fn update_contract_ipfs(ctx: &mut UpdateContractIpfs, ipfs_hash: String) -> (r: Result<
    (),
    ErrorCode,
>)
    ensures
        final(ctx).updater == old(ctx).updater,
        match old(ctx).contract@.attach(old(ctx).updater, ipfs_hash@) {
            Ok(contract) => r is Ok && final(ctx).contract@ == contract,
            Err(e) => r == Err::<(), ErrorCode>(e) && *final(ctx) == *old(ctx),
        },
        old(ctx).contract@.wf() ==> final(ctx).contract@.wf(),
{
    if ipfs_hash.as_str().len() > Contract::MAX_REFERENCE_BYTES {
        return Err(ErrorCode::IpfsHashTooLong);
    }
    if !contains_key(&ctx.contract.participants, &ctx.updater) {
        return Err(ErrorCode::NotAParticipant);
    }
    match ctx.contract.status {
        ContractStatus::Cancelled => { return Err(ErrorCode::ContractNotActive); },
        _ => {},
    }
    ctx.contract.ipfs_hash = ipfs_hash;
    Ok(())
}

} // verus!
