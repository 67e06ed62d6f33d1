use tetcore::kernel::governance::{
    EmergencyScope, GovernanceModule, ProposalStatus, ProposalType, VoteChoice, VotingThreshold,
};
use tetcore::kernel::Address;

fn create_address(i: u8) -> Address {
    let mut bytes = [0u8; 32];
    bytes[31] = i;
    Address(bytes)
}

#[test]
fn governance_test_proposal_submission() {
    let mut gov = GovernanceModule::new(1_000_000);
    let proposer = create_address(1);

    let result = gov.submit_proposal(
        proposer,
        ProposalType::ParameterChange,
        vec![1, 2, 3],
        "Test proposal".to_string(),
        0,
    );

    assert!(result.is_ok());
}

#[test]
fn governance_test_vote_casting() {
    let mut gov = GovernanceModule::new(1_000_000);
    let proposer = create_address(1);
    let voter = create_address(2);

    let proposal = gov
        .submit_proposal(proposer, ProposalType::ParameterChange, vec![1, 2, 3], "Test proposal".to_string(), 0)
        .unwrap();

    let result = gov.cast_vote(&proposal.proposal_id, voter, VoteChoice::Yes, 1000, 1);

    assert!(result.is_ok());
}

#[test]
fn governance_test_delegation() {
    let mut gov = GovernanceModule::new(1_000_000);
    let delegator = create_address(1);
    let delegate = create_address(2);

    let result = gov.delegate(delegator, delegate, 500, 0);
    assert!(result.is_ok());

    let delegation = gov.get_delegation(&delegator);
    assert!(delegation.is_some());
}

#[test]
fn governance_test_proposal_approval() {
    let mut gov = GovernanceModule::new(1_000_000);
    let proposer = create_address(1);

    let mut proposal = gov
        .submit_proposal(proposer, ProposalType::ParameterChange, vec![1, 2, 3], "Test proposal".to_string(), 0)
        .unwrap();

    proposal.yes_votes = 700000;
    proposal.no_votes = 100000;

    assert!(proposal.is_approved(1_000_000));
}

#[test]
fn governance_test_emergency_powers() {
    let mut gov = GovernanceModule::new(1_000_000);
    let activator = create_address(1);

    let scope = EmergencyScope::PauseInference;
    let result = gov.activate_emergency(scope, activator, 0);
    assert!(result.is_ok());

    assert!(gov.emergency_powers.is_some());
}

#[test]
fn tests_test_proposal_submission() {
    let mut gov = GovernanceModule::new(1_000_000);
    let proposer = create_address(1);

    let result = gov.submit_proposal(proposer, ProposalType::ParameterChange, vec![1, 2, 3], "Test proposal".to_string(), 0);

    assert!(result.is_ok());
}

#[test]
fn tests_test_proposal_approval() {
    let mut gov = GovernanceModule::new(1_000_000);
    let proposer = create_address(1);

    let mut proposal = gov
        .submit_proposal(proposer, ProposalType::ParameterChange, vec![1, 2, 3], "Test".to_string(), 0)
        .unwrap();

    proposal.yes_votes = 700000;
    proposal.no_votes = 100000;

    assert!(proposal.is_approved(1_000_000));
}

#[test]
fn tests_test_vote_casting() {
    let mut gov = GovernanceModule::new(1_000_000);
    let proposer = create_address(1);
    let voter = create_address(2);

    let proposal = gov
        .submit_proposal(proposer, ProposalType::ParameterChange, vec![1, 2, 3], "Test".to_string(), 0)
        .unwrap();

    let result = gov.cast_vote(&proposal.proposal_id, voter, VoteChoice::Yes, 1000, 1);

    assert!(result.is_ok());
}

#[test]
fn tests_test_delegation() {
    let mut gov = GovernanceModule::new(1_000_000);
    let delegator = create_address(1);
    let delegate = create_address(2);

    let result = gov.delegate(delegator, delegate, 500, 0);
    assert!(result.is_ok());

    let delegation = gov.get_delegation(&delegator);
    assert!(delegation.is_some());
}

#[test]
fn tests_test_emergency_powers() {
    let mut gov = GovernanceModule::new(1_000_000);
    let activator = create_address(1);

    let scope = EmergencyScope::PauseInference;
    let result = gov.activate_emergency(scope, activator, 0);
    assert!(result.is_ok());

    assert!(gov.emergency_powers.is_some());
}

#[test]
fn test_voting_threshold() {
    let threshold = VotingThreshold::parameter_change();
    assert!(threshold.is_approved(20, 50));
    assert!(!threshold.is_approved(10, 50));
}

#[test]
fn test_governance_proposal_voting_flow() {
    let mut governance = GovernanceModule::new(1_000_000);

    let proposer = create_address(1);
    let proposal = governance
        .submit_proposal(proposer, ProposalType::ParameterChange, vec![1, 2, 3], "Test".to_string(), 0)
        .unwrap();

    let voter1 = create_address(2);
    governance.cast_vote(&proposal.proposal_id, voter1, VoteChoice::Yes, 300000, 1).unwrap();

    let voter2 = create_address(3);
    governance.cast_vote(&proposal.proposal_id, voter2, VoteChoice::Yes, 300000, 2).unwrap();

    governance.end_voting(&proposal.proposal_id, 20000).unwrap();

    let final_proposal = governance.get_proposal(&proposal.proposal_id).unwrap();
    assert_eq!(final_proposal.status, ProposalStatus::Timelocked);
}

#[test]
fn rejected_proposal_without_quorum() {
    let mut governance = GovernanceModule::new(1_000_000);
    let proposal = governance
        .submit_proposal(create_address(1), ProposalType::ParameterChange, vec![], "Low".to_string(), 0)
        .unwrap();
    governance.cast_vote(&proposal.proposal_id, create_address(2), VoteChoice::Yes, 10, 1).unwrap();
    let status = governance.end_voting(&proposal.proposal_id, 20000).unwrap();
    assert_eq!(status, ProposalStatus::Rejected);
}

#[test]
fn second_emergency_is_refused_while_active() {
    let mut gov = GovernanceModule::new(1_000_000);
    gov.activate_emergency(EmergencyScope::PauseInference, create_address(1), 0).unwrap();
    assert!(gov.activate_emergency(EmergencyScope::PauseInference, create_address(1), 1).is_err());
    gov.deactivate_emergency().unwrap();
    assert!(gov.activate_emergency(EmergencyScope::PauseInference, create_address(1), 2).is_ok());
    let mut fresh = GovernanceModule::new(1_000_000);
    assert!(fresh.deactivate_emergency().is_err());
}
