//! Each operation once, on ordinary inputs.

use treasury_management::{
    add_whitelist_recipient, assign_role, batch_transfer, cancel_payment_stream,
    complete_milestone, create_milestone_payment, create_payment_stream, create_proposal,
    emergency_pause, execute_proposal, execute_stream_payment, identify_caller,
    initialize_treasury, remove_role, remove_whitelist_recipient, vote_on_proposal, Asset,
    BatchItem, Caller, Proposal, ProposalStatus, Pubkey, Role, Transfer, Treasury,
    TreasuryManagementError,
};

fn key(n: u8) -> Pubkey {
    Pubkey::new_from_array([n; 32])
}

fn test_treasury(name: &str) -> Treasury {
    initialize_treasury(
        key(1),
        name.to_string(),
        vec![key(11), key(12), key(13)],
        2,
        1_000_000_000,
        500_000_000,
        100_000_000,
        604800,
        true,
        50,
        1_700_000_000,
    )
    .unwrap()
}

fn treasurer(now: i64) -> Role {
    assign_role(&Caller::TreasuryAuthority, 1, true, true, false, true, true, true, now).unwrap()
}

#[test]
fn initialize_treasury_ix_success() {
    let name = "Test Treasury".to_string();
    let threshold: u8 = 2;
    let admin_limit: u64 = 1_000_000_000;
    let treasurer_limit: u64 = 500_000_000;
    let contributor_limit: u64 = 100_000_000;
    let reset_period: u64 = 604800;
    let auto_stake: bool = true;
    let stake_target_percentage: u8 = 50;
    let signers = vec![key(11), key(12), key(13)];

    let result = initialize_treasury(
        key(1),
        name.clone(),
        signers.clone(),
        threshold,
        admin_limit,
        treasurer_limit,
        contributor_limit,
        reset_period,
        auto_stake,
        stake_target_percentage,
        1_700_000_000,
    );
    assert!(result.is_ok());
    let treasury = result.unwrap();
    assert_eq!(treasury.name, name);
    assert_eq!(treasury.authority, key(1));
    assert_eq!(treasury.signers, signers);
    assert_eq!(treasury.threshold, 2);
    assert_eq!(treasury.admin_limit, 1_000_000_000);
    assert_eq!(treasury.treasurer_limit, 500_000_000);
    assert_eq!(treasury.contributor_limit, 100_000_000);
    assert_eq!(treasury.reset_period, 604800);
    assert!(treasury.auto_stake);
    assert_eq!(treasury.stake_target_percentage, 50);
    assert_eq!(treasury.total_deposited, 0);
    assert_eq!(treasury.total_withdrawn, 0);
    assert_eq!(treasury.created_at, 1_700_000_000);
    assert!(!treasury.is_paused);
    assert!(!treasury.whitelist_enabled);
}

#[test]
fn assign_role_ix_success() {
    let treasury = test_treasury("Test Treasury");
    let caller = identify_caller(&treasury, &key(1), None).unwrap();
    let result = assign_role(&caller, 1, true, true, false, true, true, true, 1_700_000_100);
    assert!(result.is_ok());
    assert_eq!(
        result.unwrap(),
        Role {
            role_type: 1,
            can_execute_payments: true,
            can_create_streams: true,
            can_manage_roles: false,
            can_view_treasury: true,
            can_propose: true,
            can_vote: true,
            spending_limit_used: 0,
            last_limit_reset: 1_700_000_100,
        }
    );
}

#[test]
fn remove_role_ix_success() {
    let treasury = test_treasury("");
    let caller = identify_caller(&treasury, &key(1), None).unwrap();
    let role = treasurer(5);
    let result = remove_role(&caller, role);
    assert!(result.is_ok());
    assert_eq!(result.unwrap(), role);
}

#[test]
fn add_whitelist_recipient_ix_success() {
    let name: String = Default::default();
    let label: String = Default::default();
    let treasury = test_treasury(&name);
    let caller = identify_caller(&treasury, &key(1), None).unwrap();
    let recipient = Pubkey::new_from_array([0; 32]);
    let result = add_whitelist_recipient(key(100), &caller, key(1), recipient, label, 77);
    assert!(result.is_ok());
    let entry = result.unwrap();
    assert_eq!(entry.treasury, key(100));
    assert_eq!(entry.recipient, recipient);
    assert_eq!(entry.label, "");
    assert_eq!(entry.added_by, key(1));
    assert_eq!(entry.added_at, 77);
}

#[test]
fn remove_whitelist_recipient_ix_success() {
    let caller = Caller::TreasuryAuthority;
    let entry =
        add_whitelist_recipient(key(100), &caller, key(1), key(40), "Vendor".to_string(), 1)
            .unwrap();
    let result = remove_whitelist_recipient(&caller, entry.clone());
    assert!(result.is_ok());
    assert_eq!(result.unwrap(), entry);
}

#[test]
fn create_payment_stream_ix_success() {
    let amount_per_period: u64 = 1_000_000;
    let period_duration: i64 = 86400;
    let start_time: i64 = 1672531200;
    let end_time: i64 = 1704067200;
    let category: u8 = 0;
    let role = treasurer(0);
    let result = create_payment_stream(
        key(100),
        &role,
        key(2),
        key(30),
        key(50),
        amount_per_period,
        period_duration,
        start_time,
        end_time,
        category,
    );
    assert!(result.is_ok());
    let stream = result.unwrap();
    assert_eq!(stream.treasury, key(100));
    assert_eq!(stream.recipient, key(30));
    assert_eq!(stream.token_mint, key(50));
    assert_eq!(stream.amount_per_period, 1_000_000);
    assert_eq!(stream.period_duration, 86400);
    assert_eq!(stream.start_time, 1672531200);
    assert_eq!(stream.end_time, 1704067200);
    assert_eq!(stream.last_payment_time, 1672531200);
    assert_eq!(stream.total_paid, 0);
    assert!(stream.is_active);
    assert_eq!(stream.category, 0);
    assert_eq!(stream.created_by, key(2));
    assert!(stream.is_well_formed());
}

#[test]
fn cancel_payment_stream_test() {
    let role = treasurer(0);
    let mut stream = create_payment_stream(
        key(100), &role, key(2), key(30), key(50), 1_000_000_000, 86400, 1672531200, 1704067200, 0,
    )
    .unwrap();
    let result = cancel_payment_stream(&mut stream, &role);
    assert!(result.is_ok());
    assert!(!stream.is_active);
    assert_eq!(stream.due_amount(1704067200), 0);
}

#[test]
fn create_milestone_payment_ix_success() {
    let amount: u64 = 5_000_000_000;
    let description = "Complete website redesign".to_string();
    let category: u8 = 2;
    let role = treasurer(0);
    let result = create_milestone_payment(
        key(100),
        &role,
        key(2),
        key(30),
        key(50),
        amount,
        description.clone(),
        category,
        1_700_000_000,
    );
    assert!(result.is_ok());
    let milestone = result.unwrap();
    assert_eq!(milestone.treasury, key(100));
    assert_eq!(milestone.recipient, key(30));
    assert_eq!(milestone.token_mint, key(50));
    assert_eq!(milestone.amount, 5_000_000_000);
    assert_eq!(milestone.description, description);
    assert!(!milestone.is_completed);
    assert_eq!(milestone.created_at, 1_700_000_000);
    assert_eq!(milestone.completed_at, 0);
    assert_eq!(milestone.created_by, key(2));
    assert_eq!(milestone.category, 2);
}

fn funding_proposal(role: &Role, amount: u64) -> Proposal {
    create_proposal(
        key(100),
        role,
        key(2),
        "Fund new development team".to_string(),
        "Allocate funds for hiring 3 new developers for Q3".to_string(),
        amount,
        key(50),
        key(30),
        1_700_000_000,
    )
    .unwrap()
}

#[test]
fn create_proposal_ix_success() {
    let role = treasurer(0);
    let proposal = funding_proposal(&role, 50_000_000_000);
    assert_eq!(proposal.treasury, key(100));
    assert_eq!(proposal.proposer, key(2));
    assert_eq!(proposal.title, "Fund new development team");
    assert_eq!(proposal.description, "Allocate funds for hiring 3 new developers for Q3");
    assert_eq!(proposal.amount, 50_000_000_000);
    assert_eq!(proposal.token_mint, key(50));
    assert_eq!(proposal.recipient, key(30));
    assert_eq!(proposal.votes_for, 0);
    assert_eq!(proposal.votes_against, 0);
    assert_eq!(proposal.status, ProposalStatus::Open);
    assert_eq!(proposal.created_at, 1_700_000_000);
    assert_eq!(proposal.executed_at, 0);
    assert!(proposal.voters.is_empty());
}

#[test]
fn vote_on_proposal_ix_success() {
    let treasury = test_treasury("Test Treasury");
    let role = treasurer(0);
    let mut proposal = funding_proposal(&role, 50_000_000_000);
    let vote_for: bool = true;
    let result = vote_on_proposal(&treasury, &mut proposal, &role, key(11), vote_for);
    assert!(result.is_ok());
    assert_eq!(proposal.votes_for, 1);
    assert_eq!(proposal.votes_against, 0);
    assert_eq!(proposal.voters, vec![key(11)]);
    assert_eq!(proposal.status, ProposalStatus::Open);
}

#[test]
fn execute_proposal_ix_success() {
    let mut treasury = test_treasury("");
    let mut role = treasurer(1_700_000_000);
    let mut proposal = funding_proposal(&role, 400_000_000);
    vote_on_proposal(&treasury, &mut proposal, &role, key(11), true).unwrap();
    vote_on_proposal(&treasury, &mut proposal, &role, key(12), true).unwrap();
    let result = execute_proposal(&mut treasury, &mut proposal, &mut role, None, 1_700_000_500);
    assert!(result.is_ok());
    assert_eq!(
        result.unwrap(),
        Transfer { recipient: key(30), asset: Asset::Token(key(50)), amount: 400_000_000 }
    );
    assert_eq!(proposal.status, ProposalStatus::Executed);
    assert_eq!(proposal.executed_at, 1_700_000_500);
    assert_eq!(treasury.total_withdrawn, 400_000_000);
    assert_eq!(role.spending_limit_used, 400_000_000);
}

#[test]
fn emergency_pause_ix_success() {
    let mut treasury = test_treasury("Test Treasury");
    let caller = identify_caller(&treasury, &key(1), None).unwrap();
    let result = emergency_pause(&mut treasury, &caller);
    assert!(result.is_ok());
    assert!(treasury.is_paused);
}

#[test]
fn batch_transfer_ix_success() {
    let mut treasury = test_treasury("Test Treasury");
    let mut role = treasurer(1_700_000_000);
    let recipients = vec![key(31), key(32), key(33)];
    let amounts: Vec<u64> = vec![1_000_000, 2_000_000, 3_000_000];
    let items: Vec<BatchItem> = recipients
        .iter()
        .zip(amounts.iter())
        .map(|(recipient, amount)| BatchItem {
            recipient: *recipient,
            amount: *amount,
            whitelist_entry: None,
        })
        .collect();
    let result = batch_transfer(&mut treasury, &mut role, key(50), &items, 1_700_000_001);
    assert!(result.is_ok());
    assert_eq!(
        result.unwrap(),
        vec![
            Transfer { recipient: key(31), asset: Asset::Token(key(50)), amount: 1_000_000 },
            Transfer { recipient: key(32), asset: Asset::Token(key(50)), amount: 2_000_000 },
            Transfer { recipient: key(33), asset: Asset::Token(key(50)), amount: 3_000_000 },
        ]
    );
    assert_eq!(treasury.total_withdrawn, 6_000_000);
    assert_eq!(role.spending_limit_used, 6_000_000);
}

#[test]
fn treasury_workflow_integration_test() {
    let threshold: u8 = 2;
    let result = initialize_treasury(
        key(1),
        "Integration Test Treasury".to_string(),
        vec![key(1), key(2), key(3)],
        threshold,
        1_000_000_000,
        500_000_000,
        100_000_000,
        604800,
        true,
        50,
        1_700_000_000,
    );
    assert!(result.is_ok());
    let treasury = result.unwrap();
    let admin = identify_caller(&treasury, &key(1), None).unwrap();
    assert_eq!(admin, Caller::TreasuryAuthority);

    let result = assign_role(&admin, 0, true, true, true, true, true, true, 1_700_000_001);
    assert!(result.is_ok());
    let admin_role = result.unwrap();

    let result = assign_role(&admin, 1, true, true, false, true, true, true, 1_700_000_002);
    assert!(result.is_ok());
    let treasurer_role = result.unwrap();

    let result = assign_role(&admin, 2, false, false, false, true, true, true, 1_700_000_003);
    assert!(result.is_ok());
    let contributor_role = result.unwrap();

    let result = add_whitelist_recipient(
        key(100),
        &admin,
        key(1),
        key(30),
        "Trusted Developer".to_string(),
        1_700_000_004,
    );
    assert!(result.is_ok());

    let result = create_proposal(
        key(100),
        &contributor_role,
        key(3),
        "Fund Development".to_string(),
        "Allocate funds for Q3 development work".to_string(),
        5_000_000_000,
        key(50),
        key(30),
        1_700_000_005,
    );
    assert!(result.is_ok());
    let mut proposal = result.unwrap();

    let result = vote_on_proposal(&treasury, &mut proposal, &admin_role, key(1), true);
    assert!(result.is_ok());
    assert_eq!(proposal.status, ProposalStatus::Open);

    let result = vote_on_proposal(&treasury, &mut proposal, &treasurer_role, key(2), true);
    assert!(result.is_ok());
    assert_eq!(proposal.votes_for, 2);
    assert_eq!(proposal.status, ProposalStatus::Approved);
    assert_eq!(
        vote_on_proposal(&treasury, &mut proposal, &contributor_role, key(3), true),
        Err(TreasuryManagementError::ProposalAlreadyExecuted)
    );
}

#[test]
fn milestone_payment_flow_test() {
    let threshold: u8 = 1;
    let admin_limit: u64 = 1_000_000_000;
    let treasurer_limit: u64 = 500_000_000;
    let contributor_limit: u64 = 100_000_000;
    let reset_period: u64 = 604800;
    let auto_stake: bool = false;
    let stake_target_percentage: u8 = 0;
    let milestone_amount: u64 = 5_000_000_000;
    let milestone_description = "Complete backend API development".to_string();
    let milestone_category: u8 = 2;

    let result = initialize_treasury(
        key(1),
        "Milestone Treasury".to_string(),
        vec![key(1)],
        threshold,
        admin_limit,
        treasurer_limit,
        contributor_limit,
        reset_period,
        auto_stake,
        stake_target_percentage,
        1_700_000_000,
    );
    assert!(result.is_ok(), "Failed to initialize treasury: {:?}", result);
    let mut treasury = result.unwrap();
    let admin = identify_caller(&treasury, &key(1), None).unwrap();
    let mut role =
        assign_role(&admin, 0, true, true, true, true, true, true, 1_700_000_000).unwrap();

    let result = create_milestone_payment(
        key(100),
        &role,
        key(1),
        key(30),
        key(50),
        milestone_amount,
        milestone_description,
        milestone_category,
        1_700_000_001,
    );
    assert!(result.is_ok(), "Failed to create milestone payment: {:?}", result);
    let mut milestone = result.unwrap();

    let result = complete_milestone(&mut treasury, &mut milestone, &mut role, None, 1_700_000_002);
    assert!(result.is_err());
    assert_eq!(result, Err(TreasuryManagementError::SpendingLimitExceeded));
    assert!(!milestone.is_completed);
    assert_eq!(treasury.total_withdrawn, 0);
}

#[test]
fn payment_stream_flow_test() {
    let threshold: u8 = 1;
    let admin_limit: u64 = 1_000_000_000;
    let treasurer_limit: u64 = 500_000_000;
    let contributor_limit: u64 = 100_000_000;
    let reset_period: u64 = 604800;
    let auto_stake: bool = false;
    let stake_target_percentage: u8 = 0;
    let amount_per_period: u64 = 1_000_000_000;
    let period_duration: i64 = 86400;
    let start_time: i64 = 1672531200;
    let end_time: i64 = 1704067200;
    let category: u8 = 0;

    let result = initialize_treasury(
        key(1),
        "Stream Treasury".to_string(),
        vec![key(1)],
        threshold,
        admin_limit,
        treasurer_limit,
        contributor_limit,
        reset_period,
        auto_stake,
        stake_target_percentage,
        1_672_000_000,
    );
    assert!(result.is_ok(), "Failed to initialize treasury: {:?}", result);
    let mut treasury = result.unwrap();
    let admin = identify_caller(&treasury, &key(1), None).unwrap();
    let mut role =
        assign_role(&admin, 0, true, true, true, true, true, true, 1_672_000_000).unwrap();

    let result = create_payment_stream(
        key(100),
        &role,
        key(1),
        key(30),
        key(50),
        amount_per_period,
        period_duration,
        start_time,
        end_time,
        category,
    );
    assert!(result.is_ok(), "Failed to create payment stream: {:?}", result);
    let mut stream = result.unwrap();
    assert_eq!(stream.due_amount(end_time), 365 * amount_per_period);

    let result = execute_stream_payment(&mut treasury, &mut stream, &mut role, None, end_time);
    assert!(result.is_err());
    assert_eq!(result, Err(TreasuryManagementError::SpendingLimitExceeded));
    assert_eq!(stream.total_paid, 0);

    let result =
        execute_stream_payment(&mut treasury, &mut stream, &mut role, None, start_time + 86400);
    assert_eq!(
        result,
        Ok(Transfer { recipient: key(30), asset: Asset::Token(key(50)), amount: 1_000_000_000 })
    );
}
