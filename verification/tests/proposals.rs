//! The votes on a proposal and its execution.

use treasury_management::{
    assign_role, create_proposal, execute_proposal, initialize_treasury, set_whitelist_enabled,
    vote_on_proposal, Caller, Proposal, ProposalStatus, Pubkey, Role, Treasury,
    TreasuryManagementError,
};

fn key(n: u8) -> Pubkey {
    Pubkey::new_from_array([n; 32])
}

fn treasury(signers: u8, threshold: u8) -> Treasury {
    let signers: Vec<Pubkey> = (0..signers).map(|n| key(10 + n)).collect();
    initialize_treasury(
        key(1),
        "Fund".to_string(),
        signers,
        threshold,
        1_000_000,
        500_000,
        100_000,
        604800,
        false,
        0,
        0,
    )
    .unwrap()
}

fn member() -> Role {
    assign_role(&Caller::TreasuryAuthority, 0, true, true, true, true, true, true, 0).unwrap()
}

fn proposal(amount: u64) -> Proposal {
    create_proposal(
        key(100),
        &member(),
        key(10),
        "Grant".to_string(),
        "A grant".to_string(),
        amount,
        key(50),
        key(30),
        5,
    )
    .unwrap()
}

#[test]
fn second_vote_of_a_voter_is_refused_and_counts_nothing() {
    let t = treasury(3, 2);
    let mut p = proposal(100);
    assert_eq!(vote_on_proposal(&t, &mut p, &member(), key(10), true), Ok(()));
    let before = p.clone();
    assert_eq!(
        vote_on_proposal(&t, &mut p, &member(), key(10), true),
        Err(TreasuryManagementError::UserAlreadyVoted)
    );
    assert_eq!(
        vote_on_proposal(&t, &mut p, &member(), key(10), false),
        Err(TreasuryManagementError::UserAlreadyVoted)
    );
    assert_eq!(p, before);
    assert_eq!((p.votes_for, p.votes_against), (1, 0));
}

#[test]
fn second_vote_is_refused_as_cast_even_after_the_decision() {
    let t = treasury(1, 1);
    let mut p = proposal(100);
    assert_eq!(vote_on_proposal(&t, &mut p, &member(), key(10), true), Ok(()));
    assert_eq!(p.status, ProposalStatus::Approved);
    let mut powerless = member();
    powerless.can_vote = false;
    assert_eq!(
        vote_on_proposal(&t, &mut p, &powerless, key(10), true),
        Err(TreasuryManagementError::UserAlreadyVoted)
    );
}

#[test]
fn vote_needs_the_capability() {
    let t = treasury(3, 2);
    let mut p = proposal(100);
    let mut powerless = member();
    powerless.can_vote = false;
    let before = p.clone();
    assert_eq!(
        vote_on_proposal(&t, &mut p, &powerless, key(10), true),
        Err(TreasuryManagementError::InsufficientPermissions)
    );
    assert_eq!(p, before);
}

#[test]
fn votes_against_reject_once_the_threshold_is_out_of_reach() {
    let t = treasury(3, 2);
    let mut p = proposal(100);
    assert_eq!(vote_on_proposal(&t, &mut p, &member(), key(10), false), Ok(()));
    assert_eq!(p.status, ProposalStatus::Open);
    assert_eq!(vote_on_proposal(&t, &mut p, &member(), key(11), true), Ok(()));
    assert_eq!(p.status, ProposalStatus::Open);
    assert_eq!(vote_on_proposal(&t, &mut p, &member(), key(12), false), Ok(()));
    assert_eq!((p.votes_for, p.votes_against), (1, 2));
    assert_eq!(p.status, ProposalStatus::Rejected);
    assert_eq!(p.voters, vec![key(10), key(11), key(12)]);
    assert_eq!(
        vote_on_proposal(&t, &mut p, &member(), key(13), true),
        Err(TreasuryManagementError::ProposalNotApproved)
    );
}

#[test]
fn unanimity_is_lost_with_the_first_vote_against() {
    let t = treasury(3, 3);
    let mut p = proposal(100);
    assert_eq!(vote_on_proposal(&t, &mut p, &member(), key(10), true), Ok(()));
    assert_eq!(vote_on_proposal(&t, &mut p, &member(), key(11), false), Ok(()));
    assert_eq!(p.status, ProposalStatus::Rejected);
}

#[test]
fn no_vote_is_taken_once_the_proposal_is_decided() {
    let mut t = treasury(3, 1);
    let mut p = proposal(100);
    assert_eq!(vote_on_proposal(&t, &mut p, &member(), key(10), true), Ok(()));
    assert_eq!(p.status, ProposalStatus::Approved);
    let approved = p.clone();
    assert_eq!(
        vote_on_proposal(&t, &mut p, &member(), key(11), false),
        Err(TreasuryManagementError::ProposalAlreadyExecuted)
    );
    assert_eq!(p, approved);
    let mut executor = member();
    assert!(execute_proposal(&mut t, &mut p, &mut executor, None, 9).is_ok());
    assert_eq!(
        vote_on_proposal(&t, &mut p, &member(), key(11), true),
        Err(TreasuryManagementError::ProposalAlreadyExecuted)
    );
    let mut draft = proposal(100);
    draft.status = ProposalStatus::Draft;
    assert_eq!(
        vote_on_proposal(&t, &mut draft, &member(), key(11), true),
        Err(TreasuryManagementError::ProposalNotApproved)
    );
}

#[test]
fn only_an_approved_proposal_is_executed() {
    let mut t = treasury(3, 2);
    let mut executor = member();
    for status in [ProposalStatus::Draft, ProposalStatus::Open, ProposalStatus::Rejected] {
        let mut p = proposal(100);
        p.status = status;
        let before = p.clone();
        assert_eq!(
            execute_proposal(&mut t, &mut p, &mut executor, None, 9),
            Err(TreasuryManagementError::ProposalNotApproved)
        );
        assert_eq!(p, before);
    }
    let mut p = proposal(100);
    p.status = ProposalStatus::Executed;
    assert_eq!(
        execute_proposal(&mut t, &mut p, &mut executor, None, 9),
        Err(TreasuryManagementError::ProposalAlreadyExecuted)
    );
    assert_eq!(t.total_withdrawn, 0);
    assert_eq!(executor, member());
}

#[test]
fn state_of_the_proposal_is_asked_before_the_executor() {
    let mut t = treasury(3, 2);
    t.is_paused = true;
    let mut powerless = member();
    powerless.can_execute_payments = false;
    let mut p = proposal(100);
    assert_eq!(
        execute_proposal(&mut t, &mut p, &mut powerless, None, 9),
        Err(TreasuryManagementError::ProposalNotApproved)
    );
    p.status = ProposalStatus::Approved;
    assert_eq!(
        execute_proposal(&mut t, &mut p, &mut powerless, None, 9),
        Err(TreasuryManagementError::InsufficientPermissions)
    );
}

#[test]
fn execution_passes_the_guards_of_a_payment() {
    let mut t = treasury(1, 1);
    set_whitelist_enabled(&mut t, &Caller::TreasuryAuthority, true).unwrap();
    let mut executor = member();
    let mut p = proposal(100);
    vote_on_proposal(&t, &mut p, &member(), key(10), true).unwrap();
    assert_eq!(
        execute_proposal(&mut t, &mut p, &mut executor, None, 9),
        Err(TreasuryManagementError::RecipientNotWhitelisted)
    );
    assert_eq!(p.status, ProposalStatus::Approved);

    let mut t = treasury(1, 1);
    let mut big = proposal(1_000_001);
    vote_on_proposal(&t, &mut big, &member(), key(10), true).unwrap();
    assert_eq!(
        execute_proposal(&mut t, &mut big, &mut executor, None, 9),
        Err(TreasuryManagementError::SpendingLimitExceeded)
    );
    assert_eq!(big.status, ProposalStatus::Approved);
    assert_eq!(big.executed_at, 0);
}

#[test]
fn proposal_needs_the_capability_and_an_amount() {
    let mut powerless = member();
    powerless.can_propose = false;
    assert_eq!(
        create_proposal(
            key(100),
            &powerless,
            key(10),
            "Grant".to_string(),
            "A grant".to_string(),
            0,
            key(50),
            key(30),
            5
        ),
        Err(TreasuryManagementError::InsufficientPermissions)
    );
    assert_eq!(
        create_proposal(
            key(100),
            &member(),
            key(10),
            "Grant".to_string(),
            "A grant".to_string(),
            0,
            key(50),
            key(30),
            5
        ),
        Err(TreasuryManagementError::InvalidPaymentAmount)
    );
}

#[test]
fn status_is_stored_under_its_code() {
    let all = [
        ProposalStatus::Draft,
        ProposalStatus::Open,
        ProposalStatus::Approved,
        ProposalStatus::Rejected,
        ProposalStatus::Executed,
    ];
    for (code, status) in all.iter().enumerate() {
        assert_eq!(status.code() as usize, code);
        assert_eq!(ProposalStatus::from_code(code as u8), Some(*status));
    }
    assert_eq!(ProposalStatus::from_code(5), None);
    assert_eq!(ProposalStatus::from_code(255), None);
}
