use agreed_contracts::contract::approve_contract;
use agreed_contracts::contract::cancel_contract;
use agreed_contracts::contract::initialize_contract;
use agreed_contracts::contract::mark_contract_complete;
use agreed_contracts::contract::update_contract_ipfs;
use agreed_contracts::contract::ApproveContract;
use agreed_contracts::contract::CancelContract;
use agreed_contracts::contract::Contract;
use agreed_contracts::contract::ContractStatus;
use agreed_contracts::contract::InitializeContract;
use agreed_contracts::contract::MarkContractComplete;
use agreed_contracts::contract::UpdateContractIpfs;
use agreed_contracts::errors::ErrorCode;
use agreed_contracts::reputation::UserReputation;
use anchor_lang::prelude::Pubkey;

fn key(n: u8) -> Pubkey {
    Pubkey::new_from_array([n; 32])
}

fn reputation(n: u8) -> UserReputation {
    UserReputation {
        wallet: key(n),
        contracts_created: 0,
        contracts_completed: 0,
        contracts_approved: 0,
        total_value_escrowed: 0,
        first_activity: 1,
        last_activity: 1,
        bump: 200,
    }
}

fn created(participants: Vec<Pubkey>, required_approvals: u8) -> Contract {
    let creator = participants[0];
    let mut ctx = InitializeContract {
        contract: None,
        creator_reputation: Some(UserReputation { wallet: creator, ..reputation(0) }),
        creator,
    };
    assert_eq!(initialize_contract(&mut ctx, 42, participants, required_approvals, 100, 250), Ok(()));
    ctx.contract.unwrap()
}

fn approve(contract: Contract, approver: u8, now: i64) -> (Result<(), ErrorCode>, ApproveContract) {
    let mut ctx = ApproveContract {
        contract,
        approver_reputation: Some(reputation(approver)),
        approver: key(approver),
    };
    let result = approve_contract(&mut ctx, now);
    (result, ctx)
}

#[test]
fn initialize_contract_stores_an_active_contract() {
    let mut ctx = InitializeContract {
        contract: None,
        creator_reputation: Some(reputation(1)),
        creator: key(1),
    };
    let result = initialize_contract(&mut ctx, 42, vec![key(1), key(2), key(3)], 2, 100, 250);
    assert_eq!(result, Ok(()));
    assert_eq!(
        ctx.contract,
        Some(Contract {
            contract_id: 42,
            creator: key(1),
            participants: vec![key(1), key(2), key(3)],
            status: ContractStatus::Active,
            required_approvals: 2,
            current_approvals: 0,
            approvers: vec![],
            ipfs_hash: String::new(),
            created_at: 100,
            bump: 250,
        })
    );
    assert_eq!(
        ctx.creator_reputation,
        Some(UserReputation { contracts_created: 1, last_activity: 100, ..reputation(1) })
    );
    assert_eq!(ctx.creator, key(1));
}

#[test]
fn initialize_contract_accepts_ten_participants_and_refuses_eleven() {
    let ten: Vec<Pubkey> = (1..=10).map(key).collect();
    let eleven: Vec<Pubkey> = (1..=11).map(key).collect();
    let mut ctx = InitializeContract {
        contract: None,
        creator_reputation: Some(reputation(1)),
        creator: key(1),
    };
    let before = ctx.clone();
    assert_eq!(
        initialize_contract(&mut ctx, 1, eleven, 1, 100, 0),
        Err(ErrorCode::TooManyParticipants)
    );
    assert_eq!(ctx, before);
    assert_eq!(initialize_contract(&mut ctx, 1, ten, 10, 100, 0), Ok(()));
    assert_eq!(ctx.contract.unwrap().participants.len(), 10);
}

#[test]
fn initialize_contract_refuses_a_threshold_above_the_participants() {
    let mut ctx = InitializeContract {
        contract: None,
        creator_reputation: Some(reputation(1)),
        creator: key(1),
    };
    let before = ctx.clone();
    assert_eq!(
        initialize_contract(&mut ctx, 1, vec![key(1), key(2)], 3, 100, 0),
        Err(ErrorCode::InvalidApprovalThreshold)
    );
    assert_eq!(ctx, before);
    assert_eq!(initialize_contract(&mut ctx, 1, vec![key(1), key(2)], 2, 100, 0), Ok(()));
}

#[test]
fn initialize_contract_refuses_a_creator_outside_the_participants() {
    let mut ctx = InitializeContract {
        contract: None,
        creator_reputation: Some(reputation(1)),
        creator: key(1),
    };
    let before = ctx.clone();
    assert_eq!(
        initialize_contract(&mut ctx, 1, vec![key(2), key(3)], 1, 100, 0),
        Err(ErrorCode::CreatorMustBeParticipant)
    );
    assert_eq!(ctx, before);
}

#[test]
fn initialize_contract_refuses_a_used_key() {
    let existing = created(vec![key(1), key(2)], 1);
    let mut ctx = InitializeContract {
        contract: Some(existing),
        creator_reputation: Some(reputation(1)),
        creator: key(1),
    };
    let before = ctx.clone();
    assert_eq!(
        initialize_contract(&mut ctx, 42, vec![key(1), key(3)], 2, 500, 0),
        Err(ErrorCode::AlreadyExists)
    );
    assert_eq!(ctx, before);
}

#[test]
fn initialize_contract_needs_the_creators_reputation_record() {
    let mut ctx = InitializeContract { contract: None, creator_reputation: None, creator: key(1) };
    assert_eq!(
        initialize_contract(&mut ctx, 1, vec![key(1)], 1, 100, 0),
        Err(ErrorCode::NotInitialized)
    );
    assert_eq!(ctx.contract, None);

    let mut ctx = InitializeContract {
        contract: None,
        creator_reputation: Some(reputation(2)),
        creator: key(1),
    };
    assert_eq!(
        initialize_contract(&mut ctx, 1, vec![key(1)], 1, 100, 0),
        Err(ErrorCode::NotInitialized)
    );
    assert_eq!(ctx.contract, None);
    assert_eq!(ctx.creator_reputation, Some(reputation(2)));
}

#[test]
fn initialize_contract_refuses_to_wrap_the_created_count() {
    let full = UserReputation { contracts_created: u32::MAX, ..reputation(1) };
    let mut ctx =
        InitializeContract { contract: None, creator_reputation: Some(full), creator: key(1) };
    assert_eq!(
        initialize_contract(&mut ctx, 1, vec![key(1)], 1, 100, 0),
        Err(ErrorCode::ArithmeticOverflow)
    );
    assert_eq!(ctx.contract, None);
    assert_eq!(ctx.creator_reputation, Some(full));
}

#[test]
fn initialize_contract_reports_the_first_failed_rule() {
    let eleven: Vec<Pubkey> = (1..=11).map(key).collect();
    let mut ctx = InitializeContract { contract: None, creator_reputation: None, creator: key(20) };
    assert_eq!(
        initialize_contract(&mut ctx, 1, eleven, 12, 100, 0),
        Err(ErrorCode::TooManyParticipants)
    );
    assert_eq!(
        initialize_contract(&mut ctx, 1, vec![key(1)], 2, 100, 0),
        Err(ErrorCode::InvalidApprovalThreshold)
    );
    assert_eq!(
        initialize_contract(&mut ctx, 1, vec![key(1)], 1, 100, 0),
        Err(ErrorCode::CreatorMustBeParticipant)
    );
    assert_eq!(
        initialize_contract(&mut ctx, 1, vec![key(1), key(1)], 1, 100, 0),
        Err(ErrorCode::CreatorMustBeParticipant)
    );
    assert_eq!(
        initialize_contract(&mut ctx, 1, vec![key(1), key(1)], 3, 100, 0),
        Err(ErrorCode::InvalidApprovalThreshold)
    );
    ctx.contract = Some(created(vec![key(20)], 1));
    assert_eq!(
        initialize_contract(&mut ctx, 1, vec![key(20), key(20)], 1, 100, 0),
        Err(ErrorCode::DuplicateParticipant)
    );
    assert_eq!(
        initialize_contract(&mut ctx, 1, vec![key(20), key(21)], 1, 100, 0),
        Err(ErrorCode::AlreadyExists)
    );
}

#[test]
fn third_of_three_approvals_completes_the_contract() {
    let contract = created(vec![key(1), key(2), key(3)], 3);

    let (result, ctx) = approve(contract, 1, 101);
    assert_eq!(result, Ok(()));
    assert_eq!(ctx.contract.status, ContractStatus::Active);
    assert_eq!(ctx.contract.current_approvals, 1);

    let (result, ctx) = approve(ctx.contract, 2, 102);
    assert_eq!(result, Ok(()));
    assert_eq!(ctx.contract.status, ContractStatus::Active);
    assert_eq!(ctx.contract.current_approvals, 2);

    let (result, ctx) = approve(ctx.contract, 3, 103);
    assert_eq!(result, Ok(()));
    assert_eq!(ctx.contract.status, ContractStatus::Completed);
    assert_eq!(ctx.contract.current_approvals, 3);
    assert_eq!(ctx.contract.approvers, vec![key(1), key(2), key(3)]);
}

#[test]
fn approve_contract_records_the_approver_and_their_reputation() {
    let contract = created(vec![key(1), key(2), key(3)], 2);
    let (result, ctx) = approve(contract.clone(), 2, 777);
    assert_eq!(result, Ok(()));
    assert_eq!(
        ctx.contract,
        Contract { approvers: vec![key(2)], current_approvals: 1, ..contract }
    );
    assert_eq!(
        ctx.approver_reputation,
        Some(UserReputation { contracts_approved: 1, last_activity: 777, ..reputation(2) })
    );
    assert_eq!(ctx.approver, key(2));
}

#[test]
fn approval_count_is_the_number_of_approvers_after_every_call() {
    let mut contract = created(vec![key(1), key(2), key(3), key(4)], 4);
    for approver in [3, 3, 9, 1, 4, 1, 2, 2] {
        let (_, ctx) = approve(contract, approver, 200);
        contract = ctx.contract;
        assert_eq!(contract.current_approvals as usize, contract.approvers.len());
    }
    assert_eq!(contract.approvers, vec![key(3), key(1), key(4), key(2)]);
    assert_eq!(contract.status, ContractStatus::Completed);
}

#[test]
fn approve_contract_refuses_an_outsider() {
    let contract = created(vec![key(1), key(2)], 2);
    let (result, ctx) = approve(contract.clone(), 9, 101);
    assert_eq!(result, Err(ErrorCode::NotAParticipant));
    assert_eq!(ctx.contract, contract);
    assert_eq!(ctx.approver_reputation, Some(reputation(9)));
}

#[test]
fn second_approval_by_the_same_identity_is_refused() {
    let contract = created(vec![key(1), key(2), key(3)], 3);
    let (result, first) = approve(contract, 2, 101);
    assert_eq!(result, Ok(()));
    let (result, second) = approve(first.contract.clone(), 2, 102);
    assert_eq!(result, Err(ErrorCode::AlreadyApproved));
    assert_eq!(second.contract.approvers, first.contract.approvers);
    assert_eq!(second.contract.current_approvals, first.contract.current_approvals);
    assert_eq!(second.contract, first.contract);
    assert_eq!(second.approver_reputation, Some(reputation(2)));
}

#[test]
fn second_approval_after_completion_is_refused_as_repeated() {
    for threshold in [0, 1] {
        let contract = created(vec![key(1), key(2)], threshold);
        let (result, first) = approve(contract, 2, 101);
        assert_eq!(result, Ok(()));
        assert_eq!(first.contract.status, ContractStatus::Completed);
        let (result, second) = approve(first.contract.clone(), 2, 102);
        assert_eq!(result, Err(ErrorCode::AlreadyApproved));
        assert_eq!(second.contract, first.contract);
        assert_eq!(second.approver_reputation, Some(reputation(2)));
        let (result, other) = approve(first.contract.clone(), 1, 103);
        assert_eq!(result, Err(ErrorCode::ContractNotActive));
        assert_eq!(other.contract, first.contract);
    }
}

#[test]
fn approver_of_a_cancelled_contract_is_refused_as_repeated() {
    let (result, first) = approve(created(vec![key(1), key(2), key(3)], 3), 2, 101);
    assert_eq!(result, Ok(()));
    let mut cancel = CancelContract { contract: first.contract, creator: key(1) };
    assert_eq!(cancel_contract(&mut cancel), Ok(()));
    let (result, ctx) = approve(cancel.contract.clone(), 2, 102);
    assert_eq!(result, Err(ErrorCode::AlreadyApproved));
    assert_eq!(ctx.contract, cancel.contract);
    let (result, _) = approve(cancel.contract.clone(), 3, 102);
    assert_eq!(result, Err(ErrorCode::ContractNotActive));
}

#[test]
fn initialize_contract_refuses_a_participant_named_twice() {
    let mut ctx = InitializeContract {
        contract: None,
        creator_reputation: Some(reputation(1)),
        creator: key(1),
    };
    let before = ctx.clone();
    for participants in [
        vec![key(1), key(1), key(2)],
        vec![key(1), key(2), key(1)],
        vec![key(2), key(1), key(2)],
        vec![key(1), key(2), key(3), key(4), key(5), key(6), key(7), key(8), key(9), key(9)],
    ] {
        assert_eq!(
            initialize_contract(&mut ctx, 1, participants, 2, 100, 0),
            Err(ErrorCode::DuplicateParticipant)
        );
        assert_eq!(ctx, before);
    }
    assert_eq!(
        initialize_contract(&mut ctx, 1, vec![key(1), key(1), key(2)], 3, 100, 0),
        Err(ErrorCode::DuplicateParticipant)
    );
    assert_eq!(ctx.contract, None);
    assert_eq!(initialize_contract(&mut ctx, 1, vec![key(1), key(2), key(3)], 3, 100, 0), Ok(()));
}

#[test]
fn approve_contract_with_threshold_zero_completes_on_the_first_approval() {
    let contract = created(vec![key(1), key(2)], 0);
    assert_eq!(contract.status, ContractStatus::Active);
    let (result, ctx) = approve(contract, 1, 101);
    assert_eq!(result, Ok(()));
    assert_eq!(ctx.contract.status, ContractStatus::Completed);
    assert_eq!(ctx.contract.current_approvals, 1);
}

#[test]
fn approve_contract_needs_the_approvers_reputation_record() {
    let contract = created(vec![key(1), key(2)], 2);
    let mut ctx =
        ApproveContract { contract: contract.clone(), approver_reputation: None, approver: key(2) };
    assert_eq!(approve_contract(&mut ctx, 101), Err(ErrorCode::NotInitialized));
    assert_eq!(ctx.contract, contract);

    let full = UserReputation { contracts_approved: u32::MAX, ..reputation(2) };
    let mut ctx = ApproveContract {
        contract: contract.clone(),
        approver_reputation: Some(full),
        approver: key(2),
    };
    assert_eq!(approve_contract(&mut ctx, 101), Err(ErrorCode::ArithmeticOverflow));
    assert_eq!(ctx.contract, contract);
    assert_eq!(ctx.approver_reputation, Some(full));
}

#[test]
fn approve_contract_refuses_to_wrap_the_approval_count() {
    let contract = Contract { current_approvals: u8::MAX, ..created(vec![key(1), key(2)], 2) };
    let (result, ctx) = approve(contract.clone(), 2, 101);
    assert_eq!(result, Err(ErrorCode::ArithmeticOverflow));
    assert_eq!(ctx.contract, contract);
}

#[test]
fn finished_contract_takes_no_approval_and_no_cancellation() {
    let completed = approve(created(vec![key(1), key(2)], 1), 1, 101).1.contract;
    assert_eq!(completed.status, ContractStatus::Completed);
    let mut cancel = CancelContract { contract: created(vec![key(1), key(2)], 1), creator: key(1) };
    assert_eq!(cancel_contract(&mut cancel), Ok(()));
    let cancelled = cancel.contract;
    assert_eq!(cancelled.status, ContractStatus::Cancelled);

    for finished in [completed, cancelled] {
        for who in [1, 2, 9] {
            let (result, ctx) = approve(finished.clone(), who, 300);
            let expected = if finished.approvers.contains(&key(who)) {
                ErrorCode::AlreadyApproved
            } else {
                ErrorCode::ContractNotActive
            };
            assert_eq!(result, Err(expected));
            assert_eq!(ctx.contract, finished);

            let mut ctx = CancelContract { contract: finished.clone(), creator: key(who) };
            assert_eq!(cancel_contract(&mut ctx), Err(ErrorCode::ContractNotActive));
            assert_eq!(ctx.contract, finished);
        }
    }
}

#[test]
fn quorum_completes_in_any_order() {
    let orders: [[u8; 3]; 6] =
        [[1, 2, 3], [1, 3, 2], [2, 1, 3], [2, 3, 1], [3, 1, 2], [3, 2, 1]];
    for order in orders {
        let mut contract = created(vec![key(1), key(2), key(3), key(4)], 3);
        for (i, approver) in order.iter().enumerate() {
            assert_eq!(contract.status, ContractStatus::Active);
            let (result, ctx) = approve(contract, *approver, 100 + i as i64);
            assert_eq!(result, Ok(()));
            contract = ctx.contract;
        }
        assert_eq!(contract.status, ContractStatus::Completed);
        assert_eq!(contract.current_approvals, 3);
    }
}

#[test]
fn cancel_contract_is_for_the_creator_of_an_active_contract() {
    let contract = created(vec![key(1), key(2)], 2);

    let mut ctx = CancelContract { contract: contract.clone(), creator: key(2) };
    assert_eq!(cancel_contract(&mut ctx), Err(ErrorCode::OnlyCreatorCanCancel));
    assert_eq!(ctx.contract, contract);

    let mut ctx = CancelContract { contract: contract.clone(), creator: key(1) };
    assert_eq!(cancel_contract(&mut ctx), Ok(()));
    assert_eq!(ctx.contract, Contract { status: ContractStatus::Cancelled, ..contract });
    assert_eq!(ctx.creator, key(1));
}

#[test]
fn cancel_contract_checks_the_status_before_the_caller() {
    let completed = approve(created(vec![key(1), key(2)], 1), 1, 101).1.contract;
    let mut ctx = CancelContract { contract: completed, creator: key(2) };
    assert_eq!(cancel_contract(&mut ctx), Err(ErrorCode::ContractNotActive));
}

#[test]
fn mark_contract_complete_counts_every_call() {
    let completed = approve(created(vec![key(1), key(2)], 1), 1, 101).1.contract;
    let mut ctx = MarkContractComplete {
        contract: completed.clone(),
        participant_reputation: Some(reputation(2)),
        participant: key(2),
    };
    assert_eq!(mark_contract_complete(&mut ctx, 400), Ok(()));
    assert_eq!(
        ctx.participant_reputation,
        Some(UserReputation { contracts_completed: 1, last_activity: 400, ..reputation(2) })
    );
    assert_eq!(mark_contract_complete(&mut ctx, 401), Ok(()));
    assert_eq!(
        ctx.participant_reputation,
        Some(UserReputation { contracts_completed: 2, last_activity: 401, ..reputation(2) })
    );
    assert_eq!(ctx.contract, completed);
    assert_eq!(ctx.participant, key(2));
}

#[test]
fn mark_contract_complete_does_not_ask_who_the_participant_is() {
    let completed = approve(created(vec![key(1), key(2)], 1), 1, 101).1.contract;
    let mut ctx = MarkContractComplete {
        contract: completed,
        participant_reputation: Some(reputation(9)),
        participant: key(9),
    };
    assert_eq!(mark_contract_complete(&mut ctx, 400), Ok(()));
    assert_eq!(ctx.participant_reputation.unwrap().contracts_completed, 1);
}

#[test]
fn mark_contract_complete_needs_a_completed_contract() {
    let active = created(vec![key(1), key(2)], 2);
    let mut cancel = CancelContract { contract: active.clone(), creator: key(1) };
    assert_eq!(cancel_contract(&mut cancel), Ok(()));
    for contract in [active, cancel.contract] {
        let mut ctx = MarkContractComplete {
            contract: contract.clone(),
            participant_reputation: Some(reputation(2)),
            participant: key(2),
        };
        assert_eq!(mark_contract_complete(&mut ctx, 400), Err(ErrorCode::ContractNotCompleted));
        assert_eq!(ctx.participant_reputation, Some(reputation(2)));
        assert_eq!(ctx.contract, contract);
    }
}

#[test]
fn mark_contract_complete_needs_the_participants_reputation_record() {
    let completed = approve(created(vec![key(1), key(2)], 1), 1, 101).1.contract;
    let mut ctx = MarkContractComplete {
        contract: completed.clone(),
        participant_reputation: None,
        participant: key(2),
    };
    assert_eq!(mark_contract_complete(&mut ctx, 400), Err(ErrorCode::NotInitialized));
    let full = UserReputation { contracts_completed: u32::MAX, ..reputation(2) };
    let mut ctx = MarkContractComplete {
        contract: completed,
        participant_reputation: Some(full),
        participant: key(2),
    };
    assert_eq!(mark_contract_complete(&mut ctx, 400), Err(ErrorCode::ArithmeticOverflow));
    assert_eq!(ctx.participant_reputation, Some(full));
}

#[test]
fn update_contract_ipfs_overwrites_the_reference() {
    let contract = created(vec![key(1), key(2)], 2);
    let first = "QmYwAPJzv5CZsnA625s3Xf2nemtYgPpHdWEz79ojWnPbdG".to_string();
    assert_eq!(first.len(), 46);
    let mut ctx = UpdateContractIpfs { contract: contract.clone(), updater: key(2) };
    assert_eq!(update_contract_ipfs(&mut ctx, first.clone()), Ok(()));
    assert_eq!(ctx.contract, Contract { ipfs_hash: first, ..contract.clone() });
    ctx.updater = key(1);
    assert_eq!(update_contract_ipfs(&mut ctx, "second".to_string()), Ok(()));
    assert_eq!(ctx.contract, Contract { ipfs_hash: "second".to_string(), ..contract.clone() });
    assert_eq!(update_contract_ipfs(&mut ctx, String::new()), Ok(()));
    assert_eq!(ctx.contract, contract);
}

#[test]
fn update_contract_ipfs_counts_bytes() {
    let contract = created(vec![key(1), key(2)], 2);
    let mut ctx = UpdateContractIpfs { contract: contract.clone(), updater: key(1) };
    assert_eq!(update_contract_ipfs(&mut ctx, "a".repeat(47)), Err(ErrorCode::IpfsHashTooLong));
    assert_eq!(ctx.contract, contract);
    // 23 characters of two bytes each are 46 bytes; 24 of them are 48.
    assert_eq!(update_contract_ipfs(&mut ctx, "é".repeat(24)), Err(ErrorCode::IpfsHashTooLong));
    assert_eq!(ctx.contract, contract);
    assert_eq!(update_contract_ipfs(&mut ctx, "é".repeat(23)), Ok(()));
    assert_eq!(ctx.contract.ipfs_hash, "é".repeat(23));
}

#[test]
fn update_contract_ipfs_is_for_participants() {
    let contract = created(vec![key(1), key(2)], 2);
    let mut ctx = UpdateContractIpfs { contract: contract.clone(), updater: key(3) };
    assert_eq!(update_contract_ipfs(&mut ctx, "ref".to_string()), Err(ErrorCode::NotAParticipant));
    assert_eq!(ctx.contract, contract);
    assert_eq!(update_contract_ipfs(&mut ctx, "a".repeat(47)), Err(ErrorCode::IpfsHashTooLong));
}

#[test]
fn update_contract_ipfs_tells_an_outsider_so_on_every_contract() {
    let completed = approve(created(vec![key(1), key(2)], 1), 1, 101).1.contract;
    let mut cancel = CancelContract { contract: created(vec![key(1), key(2)], 1), creator: key(1) };
    assert_eq!(cancel_contract(&mut cancel), Ok(()));
    for contract in [created(vec![key(1), key(2)], 2), completed, cancel.contract] {
        let mut ctx = UpdateContractIpfs { contract: contract.clone(), updater: key(9) };
        assert_eq!(
            update_contract_ipfs(&mut ctx, "ref".to_string()),
            Err(ErrorCode::NotAParticipant)
        );
        assert_eq!(ctx.contract, contract);
    }
}

#[test]
fn update_contract_ipfs_works_on_a_completed_contract_and_not_on_a_cancelled_one() {
    let completed = approve(created(vec![key(1), key(2)], 1), 1, 101).1.contract;
    let mut ctx = UpdateContractIpfs { contract: completed.clone(), updater: key(2) };
    assert_eq!(update_contract_ipfs(&mut ctx, "done".to_string()), Ok(()));
    assert_eq!(ctx.contract, Contract { ipfs_hash: "done".to_string(), ..completed });

    let mut cancel = CancelContract { contract: created(vec![key(1), key(2)], 1), creator: key(1) };
    assert_eq!(cancel_contract(&mut cancel), Ok(()));
    let mut ctx = UpdateContractIpfs { contract: cancel.contract.clone(), updater: key(2) };
    assert_eq!(
        update_contract_ipfs(&mut ctx, "late".to_string()),
        Err(ErrorCode::ContractNotActive)
    );
    assert_eq!(ctx.contract, cancel.contract);
}

#[test]
fn contract_limits() {
    assert_eq!(Contract::MAX_PARTICIPANTS, 10);
    assert_eq!(Contract::MAX_REFERENCE_BYTES, 46);
}

#[test]
fn clone_of_a_contract_is_the_same_contract() {
    let contract = approve(created(vec![key(1), key(2), key(3)], 3), 2, 101).1.contract;
    let copy = contract.clone();
    assert_eq!(copy, contract);
    assert_eq!(copy.approvers, vec![key(2)]);
    assert_eq!(copy.participants, vec![key(1), key(2), key(3)]);

    let ctx = InitializeContract {
        contract: Some(contract),
        creator_reputation: Some(reputation(1)),
        creator: key(1),
    };
    assert_eq!(ctx.clone(), ctx);
    let empty = InitializeContract { contract: None, creator_reputation: None, creator: key(7) };
    assert_eq!(empty.clone(), empty);
    assert_ne!(empty.clone(), ctx);
}
