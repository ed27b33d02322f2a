//! What holds of the operations taken together.
//!
//! Every statement here is about the functions that the operations'
//! contracts are written in, so it holds of every call of the operations.

use crate::contract::approval_outcome;
use crate::contract::approve_contract_outcome;
use crate::contract::ApproveContract;
use crate::contract::Contract;
use crate::contract::ContractStatus;
use crate::contract::ContractView;
use crate::contract::initialize_contract_outcome;
use crate::contract::InitializeContract;
use crate::errors::ErrorCode;
use crate::escrow::cancel_escrow_milestone_outcome;
use crate::escrow::CancelEscrowMilestone;
use crate::escrow::EscrowMilestoneView;
use crate::escrow::FundingOutcome;
use crate::escrow::initialize_escrow_milestone_outcome;
use crate::escrow::InitializeEscrowMilestone;
use crate::escrow::MilestoneStatus;
use crate::escrow::MilestoneTerms;
use crate::escrow::release_escrow_funds_outcome;
use crate::escrow::ReleaseEscrowFunds;
use crate::reputation::Activity;
use crate::reputation::record_activity_outcome;
use crate::reputation::UserReputation;
use crate::text::lemma_empty_text_has_no_bytes;
use anchor_lang::prelude::Pubkey;
use vstd::prelude::*;

verus! {

/// Bookkeeping keeps a record's owner and first activity, sets the last
/// activity to the time given, and lowers no counter. The record stays well
/// formed as long as the time given is not before its first activity.
pub proof fn lemma_activity_never_lowers_a_counter(
    slot: Option<UserReputation>,
    identity: Pubkey,
    activity: Activity,
    now: i64,
)
    ensures
        record_activity_outcome(slot, identity, activity, now) matches Ok(after) ==> {
            &&& slot matches Some(before)
            &&& after.wallet == identity
            &&& before.wallet == identity
            &&& after.first_activity == before.first_activity
            &&& after.last_activity == now
            &&& after.bump == before.bump
            &&& after.counters_at_least(before)
            &&& now >= before.first_activity ==> after.wf()
        },
{
}

/// A contract just created is active, has no approvals, and is well formed.
pub proof fn lemma_created_contract_is_well_formed(
    ctx: InitializeContract,
    contract_id: u64,
    participants: Seq<Pubkey>,
    required_approvals: u8,
    now: i64,
    bump: u8,
)
    ensures
        initialize_contract_outcome(ctx, contract_id, participants, required_approvals, now, bump)
            matches Ok((contract, reputation)) ==> {
            &&& contract.wf()
            &&& contract.status == ContractStatus::Active
            &&& contract.approvers.len() == 0
            &&& contract.current_approvals == 0
            &&& contract.creator == ctx.creator
            &&& contract.participants == participants
            &&& contract.required_approvals == required_approvals
            &&& ctx.creator_reputation matches Some(before)
            &&& reputation.contracts_created == before.contracts_created + 1
        },
{
    lemma_empty_text_has_no_bytes();
}

/// After an approval the approval count is the number of approvers, if it
/// was before.
pub proof fn lemma_approval_count_matches_approvers(contract: ContractView, approver: Pubkey)
    requires
        contract.current_approvals == contract.approvers.len(),
    ensures
        contract.approve(approver) matches Ok(after) ==> {
            &&& after.current_approvals == after.approvers.len()
            &&& after.approvers == contract.approvers.push(approver)
        },
{
}

/// Every operation on a contract keeps it well formed, and none touches its
/// id, creator, participants, threshold, creation time or bump.
pub proof fn lemma_contract_stays_well_formed(
    contract: ContractView,
    who: Pubkey,
    reference: Seq<char>,
)
    requires
        contract.wf(),
    ensures
        contract.approve(who) matches Ok(after) ==> after.wf() && after.same_terms(contract),
        contract.cancel(who) matches Ok(after) ==> after.wf() && after.same_terms(contract),
        contract.attach(who, reference) matches Ok(after) ==> after.wf() && after.same_terms(
            contract,
        ),
{
}

/// A completed or cancelled contract is final: nobody can approve or cancel
/// it any more, and attaching a reference leaves its status alone. Whoever
/// approved it is refused as having approved, everyone else because the
/// contract is no longer active.
pub proof fn lemma_finished_contract_stays_finished(
    contract: ContractView,
    who: Pubkey,
    reference: Seq<char>,
)
    requires
        contract.status == ContractStatus::Completed || contract.status
            == ContractStatus::Cancelled,
    ensures
        contract.approve(who) == Err::<ContractView, ErrorCode>(
            if contract.approvers.contains(who) {
                ErrorCode::AlreadyApproved
            } else {
                ErrorCode::ContractNotActive
            },
        ),
        contract.cancel(who) == Err::<ContractView, ErrorCode>(ErrorCode::ContractNotActive),
        contract.attach(who, reference) matches Ok(after) ==> after.status == contract.status,
{
}

/// Whoever has approved cannot approve again, and is told so, whether the
/// first approval left the contract active or completed it.
pub proof fn lemma_second_approval_is_refused(contract: ContractView, approver: Pubkey)
    ensures
        contract.approve(approver) matches Ok(after) ==> after.approve(approver) == Err::<
            ContractView,
            ErrorCode,
        >(ErrorCode::AlreadyApproved),
        contract.approvers.contains(approver) ==> contract.approve(approver) == Err::<
            ContractView,
            ErrorCode,
        >(ErrorCode::AlreadyApproved),
{
    if let Ok(after) = contract.approve(approver) {
        assert(after.approvers.last() == approver);
        assert(after.approvers.contains(approver));
    }
}

/// The last of a sequence without repetitions is not among the earlier
/// ones.
pub proof fn lemma_last_is_not_among_the_earlier(keys: Seq<Pubkey>)
    requires
        keys.no_duplicates(),
        keys.len() > 0,
    ensures
        !keys.drop_last().contains(keys.last()),
{
    let earlier = keys.drop_last();
    if earlier.contains(keys.last()) {
        let i = choose|i: int| 0 <= i < earlier.len() && earlier[i] == keys.last();
        assert(keys[i] == keys[keys.len() - 1]);
    }
}

/// One call of `approve_contract`, as far as the contract is concerned: who
/// approves, what their reputation slot holds, and when.
pub struct ApprovalCall {
    pub approver: Pubkey,
    pub reputation: Option<UserReputation>,
    pub now: i64,
}

impl ApprovalCall {
    /// The bookkeeping of the call goes through: the slot holds the
    /// approver's own record, and its approval counter is not at its end.
    pub open spec fn bookkeeping_goes_through(self) -> bool {
        self.reputation matches Some(record) && record.wallet == self.approver
            && record.contracts_approved < u32::MAX
    }
}

/// Who approves in `calls`, call by call.
pub open spec fn approvers_of(calls: Seq<ApprovalCall>) -> Seq<Pubkey> {
    Seq::new(calls.len(), |i: int| calls[i].approver)
}

/// The contract after the calls of `approve_contract` in `calls`, made one
/// after the other on what the call before left, or the first refusal.
pub open spec fn approve_in_turn(contract: ContractView, calls: Seq<ApprovalCall>) -> Result<
    ContractView,
    ErrorCode,
>
    decreases calls.len(),
{
    if calls.len() == 0 {
        Ok(contract)
    } else {
        match approve_in_turn(contract, calls.drop_last()) {
            Err(e) => Err(e),
            Ok(before_last) => match approval_outcome(
                before_last,
                calls.last().reputation,
                calls.last().approver,
                calls.last().now,
            ) {
                Err(e) => Err(e),
                Ok((approved, _)) => Ok(approved),
            },
        }
    }
}

/// Calls of `approve_contract` by distinct participants of a contract that
/// has no approvals yet all succeed, as long as their bookkeeping goes
/// through and they are no more than the threshold. The approvers are then
/// those of the calls, in their order, and their count is the number of
/// calls; the contract stays active below the threshold and is completed at
/// it.
pub proof fn lemma_approvals_accumulate(contract: ContractView, calls: Seq<ApprovalCall>)
    requires
        contract.status == ContractStatus::Active,
        contract.approvers.len() == 0,
        contract.current_approvals == 0,
        approvers_of(calls).no_duplicates(),
        forall|i: int|
            0 <= i < calls.len() ==> contract.participants.contains((#[trigger] calls[i]).approver),
        forall|i: int| 0 <= i < calls.len() ==> (#[trigger] calls[i]).bookkeeping_goes_through(),
        calls.len() <= contract.required_approvals,
    ensures
        approve_in_turn(contract, calls) matches Ok(after) && {
            &&& after.approvers == approvers_of(calls)
            &&& after.current_approvals == calls.len()
            &&& after.same_terms(contract)
            &&& after.ipfs_hash == contract.ipfs_hash
            &&& after.status == if 0 < calls.len() && calls.len() == contract.required_approvals {
                ContractStatus::Completed
            } else {
                ContractStatus::Active
            }
        },
    decreases calls.len(),
{
    if calls.len() == 0 {
        assert(contract.approvers =~= approvers_of(calls));
    } else {
        let earlier = calls.drop_last();
        assert(approvers_of(earlier) =~= approvers_of(calls).drop_last());
        lemma_approvals_accumulate(contract, earlier);
        lemma_last_is_not_among_the_earlier(approvers_of(calls));
        assert(approvers_of(earlier).push(calls.last().approver) =~= approvers_of(calls));
    }
}

/// Once a contract has been created with a threshold of at least one, calls
/// of `approve_contract` by as many distinct participants as the threshold
/// asks for, each with a reputation record that can take the approval, all
/// succeed in whatever order they come: the contract is active until the
/// last of them and completed by it, with the callers as its approvers.
pub proof fn lemma_quorum_completes(
    ctx: InitializeContract,
    contract_id: u64,
    participants: Seq<Pubkey>,
    required_approvals: u8,
    now: i64,
    bump: u8,
    calls: Seq<ApprovalCall>,
)
    requires
        required_approvals > 0,
        initialize_contract_outcome(ctx, contract_id, participants, required_approvals, now, bump)
            is Ok,
        approvers_of(calls).no_duplicates(),
        forall|i: int| 0 <= i < calls.len() ==> participants.contains((#[trigger] calls[i]).approver),
        forall|i: int| 0 <= i < calls.len() ==> (#[trigger] calls[i]).bookkeeping_goes_through(),
        calls.len() == required_approvals,
    ensures
        ({
            let created = initialize_contract_outcome(
                ctx,
                contract_id,
                participants,
                required_approvals,
                now,
                bump,
            )->Ok_0.0;
            &&& approve_in_turn(created, calls.drop_last()) matches Ok(before_last)
            &&& before_last.status == ContractStatus::Active
            &&& approve_in_turn(created, calls) matches Ok(after)
            &&& after.status == ContractStatus::Completed
            &&& after.current_approvals == required_approvals
            &&& after.approvers == approvers_of(calls)
        }),
{
    lemma_created_contract_is_well_formed(
        ctx,
        contract_id,
        participants,
        required_approvals,
        now,
        bump,
    );
    let created = initialize_contract_outcome(
        ctx,
        contract_id,
        participants,
        required_approvals,
        now,
        bump,
    )->Ok_0.0;
    lemma_approvals_accumulate(created, calls);
    let earlier = calls.drop_last();
    assert(approvers_of(earlier) =~= approvers_of(calls).drop_last());
    lemma_approvals_accumulate(created, earlier);
}

/// An approval that the contract's own rules admit goes through exactly
/// when the bookkeeping does: the approver has a reputation record of their
/// own whose approval counter is not at its end.
pub proof fn lemma_admitted_approval_needs_the_bookkeeping(ctx: ApproveContract, now: i64)
    requires
        ctx.contract@.approve(ctx.approver) is Ok,
    ensures
        approve_contract_outcome(ctx, now) is Ok <==> (ctx.approver_reputation matches Some(record)
            && record.wallet == ctx.approver && record.contracts_approved < u32::MAX),
        approve_contract_outcome(ctx, now) matches Ok((contract, _)) ==> Ok::<
            ContractView,
            ErrorCode,
        >(contract) == ctx.contract@.approve(ctx.approver),
{
}

/// The approval count of a well-formed contract has room for every approval
/// that the contract's own rules admit.
pub proof fn lemma_approval_count_has_room(contract: ContractView, approver: Pubkey)
    requires
        contract.wf(),
    ensures
        contract.approve(approver) != Err::<ContractView, ErrorCode>(
            ErrorCode::ArithmeticOverflow,
        ),
{
    assert(contract.current_approvals <= Contract::MAX_PARTICIPANTS) by {
        contract.approvers.unique_seq_to_set();
        contract.participants.lemma_cardinality_of_set();
        assert(contract.approvers.to_set().subset_of(contract.participants.to_set())) by {
            assert forall|key: Pubkey| contract.approvers.to_set().contains(key) implies
                contract.participants.to_set().contains(key) by {
                let i = choose|i: int| 0 <= i < contract.approvers.len() && contract.approvers[i]
                    == key;
                assert(contract.participants.contains(contract.approvers[i]));
            }
        }
        vstd::seq_lib::seq_to_set_is_finite(contract.participants);
        vstd::set_lib::lemma_len_subset(
            contract.approvers.to_set(),
            contract.participants.to_set(),
        );
    }
}

/// A well-formed contract is within its cap, so funding a milestone of it is
/// never refused for the number of its participants.
pub proof fn lemma_well_formed_contract_is_within_its_cap(
    terms: MilestoneTerms,
    contract: ContractView,
    creator: Pubkey,
)
    requires
        contract.wf(),
    ensures
        EscrowMilestoneView::terms_refused(terms, contract, creator) != Some(
            ErrorCode::TooManyParticipants,
        ),
{
}

/// Funding with an amount of zero is refused as an invalid amount, whatever
/// else holds of the terms, the contract, the records and the balances.
pub proof fn lemma_zero_amount_is_refused(
    ctx: InitializeEscrowMilestone,
    terms: MilestoneTerms,
    now: i64,
    bump: u8,
)
    requires
        terms.amount == 0,
    ensures
        initialize_escrow_milestone_outcome(ctx, terms, now, bump) == Err::<
            FundingOutcome,
            ErrorCode,
        >(ErrorCode::InvalidAmount),
{
}

/// A successful funding takes exactly the amount from the creator, puts
/// exactly the amount into custody, adds it to the creator's escrowed total,
/// and stores a funded, well-formed milestone of the contract that needs the
/// approval of every participant.
pub proof fn lemma_funding_moves_the_amount_into_custody(
    ctx: InitializeEscrowMilestone,
    terms: MilestoneTerms,
    now: i64,
    bump: u8,
)
    ensures
        initialize_escrow_milestone_outcome(ctx, terms, now, bump) matches Ok(funded) ==> {
            &&& funded.creator_lamports == ctx.creator_lamports - terms.amount
            &&& funded.escrow_lamports == ctx.escrow_lamports + terms.amount
            &&& funded.escrow_lamports >= funded.milestone.amount
            &&& ctx.creator_reputation matches Some(before)
            &&& funded.reputation.total_value_escrowed == before.total_value_escrowed
                + terms.amount
            &&& funded.milestone.status == MilestoneStatus::Funded
            &&& funded.milestone.amount == terms.amount
            &&& funded.milestone.approvals_required == ctx.contract@.participants.len()
            &&& funded.milestone.wf()
            &&& funded.milestone.belongs_to(ctx.contract@)
        },
{
}

/// Marking and approving keep a milestone well formed and with its
/// contract, and touch nothing but the marker, the approvals and the status.
pub proof fn lemma_milestone_stays_well_formed(
    milestone: EscrowMilestoneView,
    contract: ContractView,
    who: Pubkey,
)
    requires
        milestone.wf(),
        milestone.belongs_to(contract),
    ensures
        milestone.mark_complete(contract, who) matches Ok(after) ==> {
            &&& after.wf()
            &&& after.belongs_to(contract)
            &&& after.same_terms(milestone)
            &&& after.in_custody()
        },
        milestone.approve_release(contract, who) matches Ok(after) ==> {
            &&& after.wf()
            &&& after.belongs_to(contract)
            &&& after.same_terms(milestone)
            &&& after.in_custody()
            &&& after.status == milestone.status
        },
{
}

/// A milestone is marked and approved through its own contract only: with
/// a contract of another id or another creator, neither succeeds, whoever
/// asks.
pub proof fn lemma_foreign_contract_is_refused(
    milestone: EscrowMilestoneView,
    contract: ContractView,
    who: Pubkey,
)
    requires
        contract.contract_id != milestone.contract_id || contract.creator != milestone.creator,
    ensures
        milestone.mark_complete(contract, who) is Err,
        milestone.approve_release(contract, who) is Err,
{
}

/// Whoever has approved a release cannot approve it again.
pub proof fn lemma_second_release_approval_is_refused(
    milestone: EscrowMilestoneView,
    contract: ContractView,
    approver: Pubkey,
)
    ensures
        milestone.approve_release(contract, approver) matches Ok(after) ==> after.approve_release(
            contract,
            approver,
        ) == Err::<EscrowMilestoneView, ErrorCode>(ErrorCode::AlreadyApprovedMilestone),
{
    if let Ok(after) = milestone.approve_release(contract, approver) {
        assert(after.approvals.last() == approver);
        assert(after.approvals.contains(approver));
    }
}

/// The milestone after the identities of `approvers` approved its release
/// one after the other, first to last, or the first refusal.
pub open spec fn approve_release_in_turn(
    milestone: EscrowMilestoneView,
    contract: ContractView,
    approvers: Seq<Pubkey>,
) -> Result<EscrowMilestoneView, ErrorCode>
    decreases approvers.len(),
{
    if approvers.len() == 0 {
        Ok(milestone)
    } else {
        match approve_release_in_turn(milestone, contract, approvers.drop_last()) {
            Err(e) => Err(e),
            Ok(before_last) => before_last.approve_release(contract, approvers.last()),
        }
    }
}

/// Release approvals by distinct participants of the contract of a
/// milestone that was just marked complete all succeed and leave it marked complete; once they are
/// as many as the milestone requires, it has its quorum, in whatever order
/// they came.
pub proof fn lemma_release_approvals_accumulate(
    milestone: EscrowMilestoneView,
    contract: ContractView,
    approvers: Seq<Pubkey>,
)
    requires
        milestone.status == MilestoneStatus::MarkedComplete,
        milestone.is_of(contract),
        milestone.approvals.len() == 0,
        approvers.no_duplicates(),
        forall|i: int|
            0 <= i < approvers.len() ==> contract.participants.contains(#[trigger] approvers[i]),
    ensures
        approve_release_in_turn(milestone, contract, approvers) matches Ok(after) && {
            &&& after.approvals == approvers
            &&& after.status == MilestoneStatus::MarkedComplete
            &&& after.same_terms(milestone)
            &&& after.marked_complete_by == milestone.marked_complete_by
            &&& approvers.len() >= milestone.approvals_required ==> after.release_refused() is None
        },
    decreases approvers.len(),
{
    if approvers.len() == 0 {
        assert(milestone.approvals =~= approvers);
    } else {
        let earlier = approvers.drop_last();
        lemma_release_approvals_accumulate(milestone, contract, earlier);
        lemma_last_is_not_among_the_earlier(approvers);
        assert(earlier.push(approvers.last()) =~= approvers);
    }
}

/// A release succeeds only on a milestone that is marked complete and has
/// its quorum, and then moves exactly the amount from custody to the
/// recipient. A milestone that is marked complete and lacks approvals is
/// refused for that reason.
pub proof fn lemma_release_needs_quorum(ctx: ReleaseEscrowFunds)
    ensures
        release_escrow_funds_outcome(ctx) matches Ok((escrow_lamports, recipient_lamports)) ==> {
            &&& ctx.escrow_milestone@.status == MilestoneStatus::MarkedComplete
            &&& ctx.escrow_milestone@.has_quorum()
            &&& escrow_lamports == ctx.escrow_lamports - ctx.escrow_milestone.amount
            &&& recipient_lamports == ctx.recipient_lamports + ctx.escrow_milestone.amount
        },
        ctx.escrow_milestone@.status == MilestoneStatus::MarkedComplete
            && !ctx.escrow_milestone@.has_quorum() ==> release_escrow_funds_outcome(ctx) == Err::<
            (u64, u64),
            ErrorCode,
        >(ErrorCode::InsufficientApprovals),
{
}

/// A well-formed milestone that has approvals, and fewer than it needs, is
/// marked complete, so its release is refused for want of approvals.
pub proof fn lemma_short_of_quorum_is_refused(ctx: ReleaseEscrowFunds)
    requires
        ctx.escrow_milestone@.wf(),
        0 < ctx.escrow_milestone@.approvals.len() < ctx.escrow_milestone@.approvals_required,
    ensures
        ctx.escrow_milestone@.status == MilestoneStatus::MarkedComplete,
        release_escrow_funds_outcome(ctx) == Err::<(u64, u64), ErrorCode>(
            ErrorCode::InsufficientApprovals,
        ),
{
}

/// Cancelling a funded milestone moves exactly its amount from custody back
/// to the creator; cancelling a pending one moves nothing. Custody and the
/// creator's account are the only balances a cancellation is given.
pub proof fn lemma_cancel_refunds_the_creator(ctx: CancelEscrowMilestone)
    ensures
        cancel_escrow_milestone_outcome(ctx) matches Ok((escrow_lamports, creator_lamports)) ==> {
            &&& ctx.escrow_milestone.creator == ctx.creator
            &&& ctx.escrow_milestone.status == MilestoneStatus::Funded ==> {
                &&& escrow_lamports == ctx.escrow_lamports - ctx.escrow_milestone.amount
                &&& creator_lamports == ctx.creator_lamports + ctx.escrow_milestone.amount
            }
            &&& ctx.escrow_milestone.status == MilestoneStatus::Pending ==> {
                &&& escrow_lamports == ctx.escrow_lamports
                &&& creator_lamports == ctx.creator_lamports
            }
            &&& ctx.escrow_milestone.status == MilestoneStatus::Funded
                || ctx.escrow_milestone.status == MilestoneStatus::Pending
        },
        ctx.escrow_milestone.status == MilestoneStatus::Pending && ctx.escrow_milestone.creator
            == ctx.creator ==> cancel_escrow_milestone_outcome(ctx) == Ok::<(u64, u64), ErrorCode>(
            (ctx.escrow_lamports, ctx.creator_lamports),
        ),
{
}

/// No operation makes or loses value: what leaves one balance arrives in
/// the other.
pub proof fn lemma_value_is_neither_made_nor_lost(
    funding: InitializeEscrowMilestone,
    terms: MilestoneTerms,
    now: i64,
    bump: u8,
    release: ReleaseEscrowFunds,
    cancel: CancelEscrowMilestone,
)
    ensures
        initialize_escrow_milestone_outcome(funding, terms, now, bump) matches Ok(funded)
            ==> funded.creator_lamports + funded.escrow_lamports == funding.creator_lamports
            + funding.escrow_lamports,
        release_escrow_funds_outcome(release) matches Ok((escrow_lamports, recipient_lamports))
            ==> escrow_lamports + recipient_lamports == release.escrow_lamports
            + release.recipient_lamports,
        cancel_escrow_milestone_outcome(cancel) matches Ok((escrow_lamports, creator_lamports))
            ==> escrow_lamports + creator_lamports == cancel.escrow_lamports
            + cancel.creator_lamports,
{
}

/// A released or cancelled milestone is final: it can be neither marked nor
/// approved, released or cancelled again, so custody pays out at most once.
pub proof fn lemma_finished_milestone_stays_finished(
    milestone: EscrowMilestoneView,
    contract: ContractView,
    who: Pubkey,
)
    requires
        milestone.status == MilestoneStatus::Released || milestone.status
            == MilestoneStatus::Cancelled,
    ensures
        milestone.mark_complete(contract, who) == Err::<EscrowMilestoneView, ErrorCode>(
            ErrorCode::MilestoneNotFunded,
        ),
        milestone.approve_release(contract, who) == Err::<EscrowMilestoneView, ErrorCode>(
            ErrorCode::MilestoneNotMarkedComplete,
        ),
        milestone.release_refused() == Some(ErrorCode::MilestoneNotMarkedComplete),
        milestone.cancel_refused(who) is Some,
{
}

/// While custody holds at least the amount of a milestone, neither its
/// release nor its cancellation fails for want of funds.
pub proof fn lemma_custody_covers_the_payout(
    release: ReleaseEscrowFunds,
    cancel: CancelEscrowMilestone,
)
    requires
        release.escrow_lamports >= release.escrow_milestone.amount,
        cancel.escrow_lamports >= cancel.escrow_milestone.amount,
    ensures
        release_escrow_funds_outcome(release) != Err::<(u64, u64), ErrorCode>(
            ErrorCode::InsufficientFunds,
        ),
        cancel_escrow_milestone_outcome(cancel) != Err::<(u64, u64), ErrorCode>(
            ErrorCode::InsufficientFunds,
        ),
{
}

} // verus!
