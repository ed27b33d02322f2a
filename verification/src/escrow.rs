//! Custody of funds per milestone: funding, completion marking, release
//! approval, release and cancellation.

use crate::contract::Contract;
use crate::contract::ContractStatus;
use crate::contract::ContractView;
use crate::errors::ErrorCode;
use crate::identity::contains_key;
use crate::identity::same_key;
use crate::reputation::record_activity;
use crate::reputation::record_activity_outcome;
use crate::reputation::Activity;
use crate::reputation::UserReputation;
use crate::text::utf8_len;
use anchor_lang::prelude::Pubkey;
use vstd::prelude::*;

verus! {

/// Where a milestone stands. `Released` and `Cancelled` are final.
#[derive(Clone, Copy, Debug, PartialEq, Eq, Structural)]
pub enum MilestoneStatus {
    Pending,
    Funded,
    MarkedComplete,
    Released,
    Cancelled,
}

/// A sum held in custody for one milestone of a contract.
#[derive(Debug, PartialEq, Eq)]
pub struct EscrowMilestone {
    pub milestone_id: u64,
    pub contract_id: u64,
    pub description: String,
    pub amount: u64,
    pub recipient: Pubkey,
    /// Advisory only: no operation looks at it.
    pub deadline: i64,
    pub status: MilestoneStatus,
    pub approvals_required: u8,
    pub approvals: Vec<Pubkey>,
    pub marked_complete_by: Option<Pubkey>,
    pub creator: Pubkey,
    pub created_at: i64,
    pub bump: u8,
}

impl EscrowMilestone {
    /// The most bytes a milestone description may have.
    pub const MAX_DESCRIPTION_BYTES: usize = 200;
}

impl Clone for EscrowMilestone {
    fn clone(&self) -> (copy: Self)
        ensures
            copy@ == self@,
    {
        EscrowMilestone {
            milestone_id: self.milestone_id,
            contract_id: self.contract_id,
            description: self.description.clone(),
            amount: self.amount,
            recipient: self.recipient,
            deadline: self.deadline,
            status: self.status,
            approvals_required: self.approvals_required,
            approvals: self.approvals.clone(),
            marked_complete_by: self.marked_complete_by,
            creator: self.creator,
            created_at: self.created_at,
            bump: self.bump,
        }
    }
}

/// A milestone as a mathematical value.
pub struct EscrowMilestoneView {
    pub milestone_id: u64,
    pub contract_id: u64,
    pub description: Seq<char>,
    pub amount: u64,
    pub recipient: Pubkey,
    pub deadline: i64,
    pub status: MilestoneStatus,
    pub approvals_required: u8,
    pub approvals: Seq<Pubkey>,
    pub marked_complete_by: Option<Pubkey>,
    pub creator: Pubkey,
    pub created_at: i64,
    pub bump: u8,
}

impl View for EscrowMilestone {
    type V = EscrowMilestoneView;

    open spec fn view(&self) -> EscrowMilestoneView {
        EscrowMilestoneView {
            milestone_id: self.milestone_id,
            contract_id: self.contract_id,
            description: self.description@,
            amount: self.amount,
            recipient: self.recipient,
            deadline: self.deadline,
            status: self.status,
            approvals_required: self.approvals_required,
            approvals: self.approvals@,
            marked_complete_by: self.marked_complete_by,
            creator: self.creator,
            created_at: self.created_at,
            bump: self.bump,
        }
    }
}

/// The terms of a new milestone.
pub struct MilestoneTerms {
    pub milestone_id: u64,
    pub description: Seq<char>,
    pub amount: u64,
    pub recipient: Pubkey,
    pub deadline: i64,
}

/// The two balances after `amount` went from the first to the second, or why
/// it cannot go: the payer must hold the amount, and the payee's balance must
/// stay in range.
pub open spec fn move_value_outcome(from: u64, to: u64, amount: u64) -> Result<(u64, u64), ErrorCode> {
    if from < amount {
        Err(ErrorCode::InsufficientFunds)
    } else if to + amount > u64::MAX {
        Err(ErrorCode::ArithmeticOverflow)
    } else {
        Ok(((from - amount) as u64, (to + amount) as u64))
    }
}

/// Moves `amount` from a balance `from` to a balance `to` and returns both
/// new balances, payer first. Nothing wraps: a payer that holds too little
/// gives `InsufficientFunds`, a payee that would leave the range gives
/// `ArithmeticOverflow`.
pub fn move_value(from: u64, to: u64, amount: u64) -> (r: Result<(u64, u64), ErrorCode>)
    ensures
        r == move_value_outcome(from, to, amount),
{
    if from < amount {
        return Err(ErrorCode::InsufficientFunds);
    }
    if amount > u64::MAX - to {
        return Err(ErrorCode::ArithmeticOverflow);
    }
    Ok((from - amount, to + amount))
}

impl EscrowMilestoneView {
    /// What holds of every milestone that the operations of this module
    /// made: a positive amount, a description within its cap, distinct
    /// approvers, neither marker nor approvals unless the milestone was
    /// marked complete, a marker from then on, and a full quorum once
    /// released.
    pub open spec fn wf(self) -> bool {
        &&& self.amount > 0
        &&& utf8_len(self.description) <= EscrowMilestone::MAX_DESCRIPTION_BYTES
        &&& self.approvals.no_duplicates()
        &&& self.was_marked() ==> self.marked_complete_by is Some
        &&& !self.was_marked() ==> self.marked_complete_by is None && self.approvals.len() == 0
        &&& self.status == MilestoneStatus::Released ==> self.has_quorum()
    }

    /// The milestone is marked complete or released: the two states that
    /// only a marking leads to.
    pub open spec fn was_marked(self) -> bool {
        self.status == MilestoneStatus::MarkedComplete || self.status == MilestoneStatus::Released
    }

    /// The milestone is one of `contract`: it was funded for it, pays a
    /// participant, needs every participant's approval, and was marked and
    /// approved by participants only.
    pub open spec fn belongs_to(self, contract: ContractView) -> bool {
        &&& self.is_of(contract)
        &&& contract.participants.contains(self.recipient)
        &&& self.approvals_required == contract.participants.len()
        &&& forall|i: int|
            0 <= i < self.approvals.len() ==> contract.participants.contains(
                #[trigger] self.approvals[i],
            )
        &&& self.marked_complete_by matches Some(marker) ==> contract.participants.contains(marker)
    }

    /// The two milestones agree in all that is fixed at creation.
    pub open spec fn same_terms(self, other: EscrowMilestoneView) -> bool {
        &&& self.milestone_id == other.milestone_id
        &&& self.contract_id == other.contract_id
        &&& self.description == other.description
        &&& self.amount == other.amount
        &&& self.recipient == other.recipient
        &&& self.deadline == other.deadline
        &&& self.approvals_required == other.approvals_required
        &&& self.creator == other.creator
        &&& self.created_at == other.created_at
        &&& self.bump == other.bump
    }

    /// As many approvals as the release needs.
    pub open spec fn has_quorum(self) -> bool {
        self.approvals.len() >= self.approvals_required
    }

    /// Whether custody holds the milestone's amount: in the funded and the
    /// marked states it must.
    pub open spec fn in_custody(self) -> bool {
        self.status == MilestoneStatus::Funded || self.status == MilestoneStatus::MarkedComplete
    }

    /// The milestone that a successful funding stores.
    pub open spec fn fresh(
        terms: MilestoneTerms,
        contract: ContractView,
        creator: Pubkey,
        now: i64,
        bump: u8,
    ) -> EscrowMilestoneView {
        EscrowMilestoneView {
            milestone_id: terms.milestone_id,
            contract_id: contract.contract_id,
            description: terms.description,
            amount: terms.amount,
            recipient: terms.recipient,
            deadline: terms.deadline,
            status: MilestoneStatus::Funded,
            approvals_required: contract.participants.len() as u8,
            approvals: Seq::empty(),
            marked_complete_by: None,
            creator,
            created_at: now,
            bump,
        }
    }

    /// Why `creator` cannot fund a milestone with these terms for
    /// `contract`, if they cannot. An amount of zero is refused as such,
    /// whatever else holds.
    pub open spec fn terms_refused(
        terms: MilestoneTerms,
        contract: ContractView,
        creator: Pubkey,
    ) -> Option<ErrorCode> {
        if terms.amount == 0 {
            Some(ErrorCode::InvalidAmount)
        } else if utf8_len(terms.description) > EscrowMilestone::MAX_DESCRIPTION_BYTES {
            Some(ErrorCode::DescriptionTooLong)
        } else if contract.status == ContractStatus::Cancelled {
            Some(ErrorCode::ContractNotActive)
        } else if contract.creator != creator {
            Some(ErrorCode::OnlyCreatorCanInitializeEscrow)
        } else if !contract.participants.contains(terms.recipient) {
            Some(ErrorCode::RecipientNotParticipant)
        } else if contract.participants.len() > Contract::MAX_PARTICIPANTS {
            Some(ErrorCode::TooManyParticipants)
        } else {
            None
        }
    }

    /// The milestone was funded for `contract`: it names the contract's id
    /// and creator, the two that make up the contract's key.
    pub open spec fn is_of(self, contract: ContractView) -> bool {
        self.contract_id == contract.contract_id && self.creator == contract.creator
    }

    /// The milestone after `marker` marks it complete, or why they cannot.
    /// Only a participant of the milestone's own contract can.
    pub open spec fn mark_complete(self, contract: ContractView, marker: Pubkey) -> Result<
        EscrowMilestoneView,
        ErrorCode,
    > {
        if self.status != MilestoneStatus::Funded {
            Err(ErrorCode::MilestoneNotFunded)
        } else if !contract.participants.contains(marker) {
            Err(ErrorCode::NotAParticipant)
        } else if !self.is_of(contract) {
            Err(ErrorCode::ContractMismatch)
        } else {
            Ok(
                EscrowMilestoneView {
                    marked_complete_by: Some(marker),
                    status: MilestoneStatus::MarkedComplete,
                    ..self
                },
            )
        }
    }

    /// The milestone after `approver` approves its release, or why they
    /// cannot. The status stays: release is a call of its own.
    pub open spec fn approve_release(self, contract: ContractView, approver: Pubkey) -> Result<
        EscrowMilestoneView,
        ErrorCode,
    > {
        if self.status != MilestoneStatus::MarkedComplete {
            Err(ErrorCode::MilestoneNotMarkedComplete)
        } else if !contract.participants.contains(approver) {
            Err(ErrorCode::NotAParticipant)
        } else if self.approvals.contains(approver) {
            Err(ErrorCode::AlreadyApprovedMilestone)
        } else if !self.is_of(contract) {
            Err(ErrorCode::ContractMismatch)
        } else {
            Ok(EscrowMilestoneView { approvals: self.approvals.push(approver), ..self })
        }
    }

    /// Why the milestone cannot be released, as far as the milestone itself
    /// decides.
    pub open spec fn release_refused(self) -> Option<ErrorCode> {
        if self.status != MilestoneStatus::MarkedComplete {
            Some(ErrorCode::MilestoneNotMarkedComplete)
        } else if !self.has_quorum() {
            Some(ErrorCode::InsufficientApprovals)
        } else {
            None
        }
    }

    /// Why `caller` cannot cancel the milestone, as far as the milestone
    /// itself decides.
    pub open spec fn cancel_refused(self, caller: Pubkey) -> Option<ErrorCode> {
        if self.creator != caller {
            Some(ErrorCode::OnlyCreatorCanCancelEscrow)
        } else if self.status != MilestoneStatus::Funded && self.status
            != MilestoneStatus::Pending {
            Some(ErrorCode::CannotCancelMilestone)
        } else {
            None
        }
    }

    /// The milestone with another status and all else the same.
    pub open spec fn with_status(self, status: MilestoneStatus) -> EscrowMilestoneView {
        EscrowMilestoneView { status, ..self }
    }
}

/// The records and balances an `initialize_escrow_milestone` call works on.
#[derive(Debug, PartialEq, Eq)]
pub struct InitializeEscrowMilestone {
    /// What the ledger holds under the key of the new milestone.
    pub escrow_milestone: Option<EscrowMilestone>,
    /// The balance of the milestone's custody account.
    pub escrow_lamports: u64,
    pub contract: Contract,
    /// What the ledger holds under the creator's reputation key.
    pub creator_reputation: Option<UserReputation>,
    /// The identity funding the milestone, authenticated by the caller.
    pub creator: Pubkey,
    /// The balance of the creator's account.
    pub creator_lamports: u64,
}

impl Clone for InitializeEscrowMilestone {
    fn clone(&self) -> (copy: Self)
        ensures
            (copy.escrow_milestone is Some) == (self.escrow_milestone is Some),
            self.escrow_milestone is Some ==> copy.escrow_milestone->0@ == self.escrow_milestone->0@,
            copy.escrow_lamports == self.escrow_lamports,
            copy.contract@ == self.contract@,
            copy.creator_reputation == self.creator_reputation,
            copy.creator == self.creator,
            copy.creator_lamports == self.creator_lamports,
    {
        InitializeEscrowMilestone {
            escrow_milestone: match &self.escrow_milestone {
                Some(record) => Some(record.clone()),
                None => None,
            },
            escrow_lamports: self.escrow_lamports,
            contract: self.contract.clone(),
            creator_reputation: self.creator_reputation,
            creator: self.creator,
            creator_lamports: self.creator_lamports,
        }
    }
}

/// The records a `mark_milestone_complete` call works on.
#[derive(Debug, PartialEq, Eq)]
pub struct MarkMilestoneComplete {
    pub escrow_milestone: EscrowMilestone,
    pub contract: Contract,
    /// The identity marking the milestone, authenticated by the caller.
    pub marker: Pubkey,
}

impl Clone for MarkMilestoneComplete {
    fn clone(&self) -> (copy: Self)
        ensures
            copy.escrow_milestone@ == self.escrow_milestone@,
            copy.contract@ == self.contract@,
            copy.marker == self.marker,
    {
        MarkMilestoneComplete {
            escrow_milestone: self.escrow_milestone.clone(),
            contract: self.contract.clone(),
            marker: self.marker,
        }
    }
}

/// The records an `approve_milestone_release` call works on.
#[derive(Debug, PartialEq, Eq)]
pub struct ApproveMilestoneRelease {
    pub escrow_milestone: EscrowMilestone,
    pub contract: Contract,
    /// What the ledger holds under the approver's reputation key.
    pub approver_reputation: Option<UserReputation>,
    /// The identity approving the release, authenticated by the caller.
    pub approver: Pubkey,
}

impl Clone for ApproveMilestoneRelease {
    fn clone(&self) -> (copy: Self)
        ensures
            copy.escrow_milestone@ == self.escrow_milestone@,
            copy.contract@ == self.contract@,
            copy.approver_reputation == self.approver_reputation,
            copy.approver == self.approver,
    {
        ApproveMilestoneRelease {
            escrow_milestone: self.escrow_milestone.clone(),
            contract: self.contract.clone(),
            approver_reputation: self.approver_reputation,
            approver: self.approver,
        }
    }
}

/// The record and balances a `release_escrow_funds` call works on.
#[derive(Debug, PartialEq, Eq)]
pub struct ReleaseEscrowFunds {
    pub escrow_milestone: EscrowMilestone,
    /// The balance of the milestone's custody account.
    pub escrow_lamports: u64,
    /// The balance of the account of the milestone's recipient.
    pub recipient_lamports: u64,
}

impl Clone for ReleaseEscrowFunds {
    fn clone(&self) -> (copy: Self)
        ensures
            copy.escrow_milestone@ == self.escrow_milestone@,
            copy.escrow_lamports == self.escrow_lamports,
            copy.recipient_lamports == self.recipient_lamports,
    {
        ReleaseEscrowFunds {
            escrow_milestone: self.escrow_milestone.clone(),
            escrow_lamports: self.escrow_lamports,
            recipient_lamports: self.recipient_lamports,
        }
    }
}

/// The record and balances a `cancel_escrow_milestone` call works on.
#[derive(Debug, PartialEq, Eq)]
pub struct CancelEscrowMilestone {
    pub escrow_milestone: EscrowMilestone,
    /// The balance of the milestone's custody account.
    pub escrow_lamports: u64,
    /// The identity asking for the cancellation, authenticated by the
    /// caller.
    pub creator: Pubkey,
    /// The balance of that identity's account.
    pub creator_lamports: u64,
}

impl Clone for CancelEscrowMilestone {
    fn clone(&self) -> (copy: Self)
        ensures
            copy.escrow_milestone@ == self.escrow_milestone@,
            copy.escrow_lamports == self.escrow_lamports,
            copy.creator == self.creator,
            copy.creator_lamports == self.creator_lamports,
    {
        CancelEscrowMilestone {
            escrow_milestone: self.escrow_milestone.clone(),
            escrow_lamports: self.escrow_lamports,
            creator: self.creator,
            creator_lamports: self.creator_lamports,
        }
    }
}

/// What a successful `initialize_escrow_milestone` leaves behind.
pub struct FundingOutcome {
    pub milestone: EscrowMilestoneView,
    pub creator_lamports: u64,
    pub escrow_lamports: u64,
    pub reputation: UserReputation,
}

/// What `initialize_escrow_milestone` leaves behind, or why it refuses: the
/// terms are checked first, then that the key is free, then that the amount
/// can move from the creator into custody, then the creator's bookkeeping.
pub open spec fn initialize_escrow_milestone_outcome(
    ctx: InitializeEscrowMilestone,
    terms: MilestoneTerms,
    now: i64,
    bump: u8,
) -> Result<FundingOutcome, ErrorCode> {
    match EscrowMilestoneView::terms_refused(terms, ctx.contract@, ctx.creator) {
        Some(e) => Err(e),
        None => if ctx.escrow_milestone is Some {
            Err(ErrorCode::AlreadyExists)
        } else {
            match move_value_outcome(ctx.creator_lamports, ctx.escrow_lamports, terms.amount) {
                Err(e) => Err(e),
                Ok((creator_lamports, escrow_lamports)) => match record_activity_outcome(
                    ctx.creator_reputation,
                    ctx.creator,
                    Activity::ValueEscrowed(terms.amount),
                    now,
                ) {
                    Err(e) => Err(e),
                    Ok(reputation) => Ok(
                        FundingOutcome {
                            milestone: EscrowMilestoneView::fresh(
                                terms,
                                ctx.contract@,
                                ctx.creator,
                                now,
                                bump,
                            ),
                            creator_lamports,
                            escrow_lamports,
                            reputation,
                        },
                    ),
                },
            }
        },
    }
}

/// Creates a milestone of `ctx.contract` and funds it in one step: `amount`
/// moves from the creator's balance into custody, the milestone is stored as
/// funded with the approval of every participant required, and the amount is
/// added to the creator's escrowed total. Either all of this happens or none.
///
/// Refused with `InvalidAmount`, `DescriptionTooLong`, `ContractNotActive`
/// for a cancelled contract, `OnlyCreatorCanInitializeEscrow`,
/// `RecipientNotParticipant`, `TooManyParticipants` for a contract over its
/// cap, `AlreadyExists`, `InsufficientFunds`, `ArithmeticOverflow`, or what
/// the creator's bookkeeping reports, in this order.
pub fn initialize_escrow_milestone(
    ctx: &mut InitializeEscrowMilestone,
    milestone_id: u64,
    description: String,
    amount: u64,
    recipient: Pubkey,
    deadline: i64,
    now: i64,
    bump: u8,
) -> (r: Result<(), ErrorCode>)
    ensures
        final(ctx).contract == old(ctx).contract,
        final(ctx).creator == old(ctx).creator,
        match initialize_escrow_milestone_outcome(
            *old(ctx),
            (MilestoneTerms { milestone_id, description: description@, amount, recipient, deadline }),
            now,
            bump,
        ) {
            Ok(funded) => {
                &&& r is Ok
                &&& final(ctx).escrow_milestone is Some
                &&& final(ctx).escrow_milestone->0@ == funded.milestone
                &&& final(ctx).creator_lamports == funded.creator_lamports
                &&& final(ctx).escrow_lamports == funded.escrow_lamports
                &&& final(ctx).creator_reputation == Some(funded.reputation)
            },
            Err(e) => r == Err::<(), ErrorCode>(e) && *final(ctx) == *old(ctx),
        },
        amount == 0 ==> r == Err::<(), ErrorCode>(ErrorCode::InvalidAmount),
        r is Ok ==> {
            &&& final(ctx).creator_lamports == old(ctx).creator_lamports - amount
            &&& final(ctx).escrow_lamports == old(ctx).escrow_lamports + amount
            &&& final(ctx).escrow_milestone->0@.wf()
            &&& final(ctx).escrow_milestone->0@.belongs_to(final(ctx).contract@)
        },
{
    if amount == 0 {
        return Err(ErrorCode::InvalidAmount);
    }
    if description.as_str().len() > EscrowMilestone::MAX_DESCRIPTION_BYTES {
        return Err(ErrorCode::DescriptionTooLong);
    }
    match ctx.contract.status {
        ContractStatus::Cancelled => { return Err(ErrorCode::ContractNotActive); },
        _ => {},
    }
    if !same_key(&ctx.contract.creator, &ctx.creator) {
        return Err(ErrorCode::OnlyCreatorCanInitializeEscrow);
    }
    if !contains_key(&ctx.contract.participants, &recipient) {
        return Err(ErrorCode::RecipientNotParticipant);
    }
    if ctx.contract.participants.len() > Contract::MAX_PARTICIPANTS {
        return Err(ErrorCode::TooManyParticipants);
    }
    if ctx.escrow_milestone.is_some() {
        return Err(ErrorCode::AlreadyExists);
    }
    let (creator_lamports, escrow_lamports) = match move_value(
        ctx.creator_lamports,
        ctx.escrow_lamports,
        amount,
    ) {
        Ok(balances) => balances,
        Err(e) => { return Err(e); },
    };
    let reputation = match record_activity(
        ctx.creator_reputation,
        ctx.creator,
        Activity::ValueEscrowed(amount),
        now,
    ) {
        Ok(reputation) => reputation,
        Err(e) => { return Err(e); },
    };
    ctx.escrow_milestone = Some(
        EscrowMilestone {
            milestone_id,
            contract_id: ctx.contract.contract_id,
            description,
            amount,
            recipient,
            deadline,
            status: MilestoneStatus::Funded,
            approvals_required: ctx.contract.participants.len() as u8,
            approvals: Vec::new(),
            marked_complete_by: None,
            creator: ctx.creator,
            created_at: now,
            bump,
        },
    );
    ctx.creator_lamports = creator_lamports;
    ctx.escrow_lamports = escrow_lamports;
    ctx.creator_reputation = Some(reputation);
    Ok(())
}

/// Whether `milestone` was funded for `contract`.
pub fn funded_for(milestone: &EscrowMilestone, contract: &Contract) -> (r: bool)
    ensures
        r == milestone@.is_of(contract@),
{
    milestone.contract_id == contract.contract_id && same_key(&milestone.creator, &contract.creator)
}

/// Marks a funded milestone complete on behalf of `ctx.marker`, who may be
/// any participant of the milestone's contract, the recipient included.
///
/// Refused with `MilestoneNotFunded`, `NotAParticipant` for a marker outside
/// `ctx.contract`, then `ContractMismatch` where `ctx.contract` is not the
/// contract the milestone was funded for.
pub fn mark_milestone_complete(ctx: &mut MarkMilestoneComplete) -> (r: Result<(), ErrorCode>)
    ensures
        final(ctx).contract == old(ctx).contract,
        final(ctx).marker == old(ctx).marker,
        match old(ctx).escrow_milestone@.mark_complete(old(ctx).contract@, old(ctx).marker) {
            Ok(milestone) => r is Ok && final(ctx).escrow_milestone@ == milestone,
            Err(e) => r == Err::<(), ErrorCode>(e) && *final(ctx) == *old(ctx),
        },
        old(ctx).escrow_milestone@.wf() ==> final(ctx).escrow_milestone@.wf(),
        old(ctx).escrow_milestone@.belongs_to(old(ctx).contract@)
            ==> final(ctx).escrow_milestone@.belongs_to(old(ctx).contract@),
{
    match ctx.escrow_milestone.status {
        MilestoneStatus::Funded => {},
        _ => { return Err(ErrorCode::MilestoneNotFunded); },
    }
    if !contains_key(&ctx.contract.participants, &ctx.marker) {
        return Err(ErrorCode::NotAParticipant);
    }
    if !funded_for(&ctx.escrow_milestone, &ctx.contract) {
        return Err(ErrorCode::ContractMismatch);
    }
    ctx.escrow_milestone.marked_complete_by = Some(ctx.marker);
    ctx.escrow_milestone.status = MilestoneStatus::MarkedComplete;
    Ok(())
}

/// The milestone and the approver's record after
/// `approve_milestone_release`, or why it refuses: the milestone's own rules
/// first, then the bookkeeping.
pub open spec fn approve_milestone_release_outcome(ctx: ApproveMilestoneRelease, now: i64) -> Result<
    (EscrowMilestoneView, UserReputation),
    ErrorCode,
> {
    match ctx.escrow_milestone@.approve_release(ctx.contract@, ctx.approver) {
        Err(e) => Err(e),
        Ok(milestone) => match record_activity_outcome(
            ctx.approver_reputation,
            ctx.approver,
            Activity::Touched,
            now,
        ) {
            Err(e) => Err(e),
            Ok(reputation) => Ok((milestone, reputation)),
        },
    }
}

/// Records that `ctx.approver` approves the release of a milestone that was
/// marked complete, and notes the activity in their reputation. The status
/// does not change, whatever the number of approvals.
///
/// Refused with `MilestoneNotMarkedComplete`, `NotAParticipant` for an
/// approver outside `ctx.contract`, `AlreadyApprovedMilestone`,
/// `ContractMismatch` where `ctx.contract` is not the contract the milestone
/// was funded for, or what the approver's bookkeeping reports, in this order.
pub fn approve_milestone_release(ctx: &mut ApproveMilestoneRelease, now: i64) -> (r: Result<
    (),
    ErrorCode,
>)
    ensures
        final(ctx).contract == old(ctx).contract,
        final(ctx).approver == old(ctx).approver,
        match approve_milestone_release_outcome(*old(ctx), now) {
            Ok((milestone, reputation)) => {
                &&& r is Ok
                &&& final(ctx).escrow_milestone@ == milestone
                &&& final(ctx).approver_reputation == Some(reputation)
            },
            Err(e) => r == Err::<(), ErrorCode>(e) && *final(ctx) == *old(ctx),
        },
        old(ctx).escrow_milestone@.wf() ==> final(ctx).escrow_milestone@.wf(),
        old(ctx).escrow_milestone@.belongs_to(old(ctx).contract@)
            ==> final(ctx).escrow_milestone@.belongs_to(old(ctx).contract@),
        r is Ok ==> final(ctx).escrow_milestone.approvals@.contains(old(ctx).approver),
{
    match ctx.escrow_milestone.status {
        MilestoneStatus::MarkedComplete => {},
        _ => { return Err(ErrorCode::MilestoneNotMarkedComplete); },
    }
    if !contains_key(&ctx.contract.participants, &ctx.approver) {
        return Err(ErrorCode::NotAParticipant);
    }
    if contains_key(&ctx.escrow_milestone.approvals, &ctx.approver) {
        return Err(ErrorCode::AlreadyApprovedMilestone);
    }
    if !funded_for(&ctx.escrow_milestone, &ctx.contract) {
        return Err(ErrorCode::ContractMismatch);
    }
    let reputation = match record_activity(
        ctx.approver_reputation,
        ctx.approver,
        Activity::Touched,
        now,
    ) {
        Ok(reputation) => reputation,
        Err(e) => { return Err(e); },
    };
    ctx.escrow_milestone.approvals.push(ctx.approver);
    assert(ctx.escrow_milestone.approvals@.last() == ctx.approver);
    ctx.approver_reputation = Some(reputation);
    Ok(())
}

/// The custody balance and the recipient's balance after
/// `release_escrow_funds`, custody first, or why it refuses: the milestone's
/// own rules first, then that the amount can move.
pub open spec fn release_escrow_funds_outcome(ctx: ReleaseEscrowFunds) -> Result<
    (u64, u64),
    ErrorCode,
> {
    match ctx.escrow_milestone@.release_refused() {
        Some(e) => Err(e),
        None => move_value_outcome(
            ctx.escrow_lamports,
            ctx.recipient_lamports,
            ctx.escrow_milestone.amount,
        ),
    }
}

/// Pays a milestone out: once it is marked complete and has the approvals it
/// needs, its amount moves from custody to the recipient and the milestone
/// becomes released. Anyone may ask for this.
///
/// Refused with `MilestoneNotMarkedComplete`, `InsufficientApprovals`,
/// `InsufficientFunds`, then `ArithmeticOverflow`.
pub fn release_escrow_funds(ctx: &mut ReleaseEscrowFunds) -> (r: Result<(), ErrorCode>)
    ensures
        match release_escrow_funds_outcome(*old(ctx)) {
            Ok((escrow_lamports, recipient_lamports)) => {
                &&& r is Ok
                &&& final(ctx).escrow_milestone@ == old(ctx).escrow_milestone@.with_status(
                    MilestoneStatus::Released,
                )
                &&& final(ctx).escrow_lamports == escrow_lamports
                &&& final(ctx).recipient_lamports == recipient_lamports
            },
            Err(e) => r == Err::<(), ErrorCode>(e) && *final(ctx) == *old(ctx),
        },
        r is Ok ==> {
            &&& old(ctx).escrow_milestone@.has_quorum()
            &&& final(ctx).escrow_lamports == old(ctx).escrow_lamports - old(ctx).escrow_milestone.amount
            &&& final(ctx).recipient_lamports == old(ctx).recipient_lamports + old(ctx).escrow_milestone.amount
        },
        old(ctx).escrow_milestone@.wf() ==> final(ctx).escrow_milestone@.wf(),
{
    match ctx.escrow_milestone.status {
        MilestoneStatus::MarkedComplete => {},
        _ => { return Err(ErrorCode::MilestoneNotMarkedComplete); },
    }
    if ctx.escrow_milestone.approvals.len() < ctx.escrow_milestone.approvals_required as usize {
        return Err(ErrorCode::InsufficientApprovals);
    }
    let (escrow_lamports, recipient_lamports) = match move_value(
        ctx.escrow_lamports,
        ctx.recipient_lamports,
        ctx.escrow_milestone.amount,
    ) {
        Ok(balances) => balances,
        Err(e) => { return Err(e); },
    };
    ctx.escrow_lamports = escrow_lamports;
    ctx.recipient_lamports = recipient_lamports;
    ctx.escrow_milestone.status = MilestoneStatus::Released;
    Ok(())
}

/// The custody balance and the creator's balance after
/// `cancel_escrow_milestone`, custody first, or why it refuses: the
/// milestone's own rules first, then, for a funded milestone, that the amount
/// can move back. A pending milestone holds nothing, and nothing moves.
pub open spec fn cancel_escrow_milestone_outcome(ctx: CancelEscrowMilestone) -> Result<
    (u64, u64),
    ErrorCode,
> {
    match ctx.escrow_milestone@.cancel_refused(ctx.creator) {
        Some(e) => Err(e),
        None => if ctx.escrow_milestone.status == MilestoneStatus::Funded {
            move_value_outcome(ctx.escrow_lamports, ctx.creator_lamports, ctx.escrow_milestone.amount)
        } else {
            Ok((ctx.escrow_lamports, ctx.creator_lamports))
        },
    }
}

/// Cancels a milestone on its creator's request. A funded milestone gives its
/// whole amount back to the creator; a pending one moves nothing.
///
/// Refused with `OnlyCreatorCanCancelEscrow`, `CannotCancelMilestone`,
/// `InsufficientFunds`, then `ArithmeticOverflow`.
pub fn cancel_escrow_milestone(ctx: &mut CancelEscrowMilestone) -> (r: Result<(), ErrorCode>)
    ensures
        final(ctx).creator == old(ctx).creator,
        match cancel_escrow_milestone_outcome(*old(ctx)) {
            Ok((escrow_lamports, creator_lamports)) => {
                &&& r is Ok
                &&& final(ctx).escrow_milestone@ == old(ctx).escrow_milestone@.with_status(
                    MilestoneStatus::Cancelled,
                )
                &&& final(ctx).escrow_lamports == escrow_lamports
                &&& final(ctx).creator_lamports == creator_lamports
            },
            Err(e) => r == Err::<(), ErrorCode>(e) && *final(ctx) == *old(ctx),
        },
        r is Ok && old(ctx).escrow_milestone.status == MilestoneStatus::Funded ==> {
            &&& final(ctx).escrow_lamports == old(ctx).escrow_lamports - old(ctx).escrow_milestone.amount
            &&& final(ctx).creator_lamports == old(ctx).creator_lamports + old(ctx).escrow_milestone.amount
        },
        r is Ok && old(ctx).escrow_milestone.status == MilestoneStatus::Pending ==> {
            &&& final(ctx).escrow_lamports == old(ctx).escrow_lamports
            &&& final(ctx).creator_lamports == old(ctx).creator_lamports
        },
        old(ctx).escrow_milestone@.wf() ==> final(ctx).escrow_milestone@.wf(),
{
    if !same_key(&ctx.escrow_milestone.creator, &ctx.creator) {
        return Err(ErrorCode::OnlyCreatorCanCancelEscrow);
    }
    let funded = match ctx.escrow_milestone.status {
        MilestoneStatus::Funded => true,
        MilestoneStatus::Pending => false,
        _ => { return Err(ErrorCode::CannotCancelMilestone); },
    };
    if funded {
        let (escrow_lamports, creator_lamports) = match move_value(
            ctx.escrow_lamports,
            ctx.creator_lamports,
            ctx.escrow_milestone.amount,
        ) {
            Ok(balances) => balances,
            Err(e) => { return Err(e); },
        };
        ctx.escrow_lamports = escrow_lamports;
        ctx.creator_lamports = creator_lamports;
    }
    ctx.escrow_milestone.status = MilestoneStatus::Cancelled;
    Ok(())
}

} // verus!
