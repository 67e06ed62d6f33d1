use tetcore::kernel::Address;
use tetcore::runtime::governance::{EmergencyScope, GovernanceModule, ProposalState, ProposalType};

fn create_test_address(i: u8) -> Address {
    let mut bytes = [0u8; 32];
    bytes[31] = i;
    Address(bytes)
}

#[test]
fn test_proposal_creation_with_types() {
    let mut governance = GovernanceModule::new();
    let proposer = create_test_address(1);

    let result = governance.create_proposal(
        proposer,
        "Test Parameter Change".to_string(),
        "Change gas fees".to_string(),
        vec![1, 2, 3],
        ProposalType::ParameterChange,
        1000,
        EmergencyScope::NoScope,
    );

    assert!(result.is_ok());
    let proposal_id = result.unwrap();

    let proposal = governance.get_proposal(&proposal_id).unwrap();
    assert_eq!(proposal.proposal_type, ProposalType::ParameterChange);
    assert_eq!(proposal.approval_threshold, 50);
    assert_eq!(proposal.quorum_threshold, 30);
}

#[test]
fn test_emergency_proposal_thresholds() {
    let mut governance = GovernanceModule::new();
    let proposer = create_test_address(1);

    let result = governance.create_proposal(
        proposer,
        "Emergency Brake".to_string(),
        "Stop chain due to vulnerability".to_string(),
        vec![0xFF],
        ProposalType::EmergencyBrake,
        100,
        EmergencyScope::Full,
    );

    assert!(result.is_ok());
    let proposal_id = result.unwrap();

    let proposal = governance.get_proposal(&proposal_id).unwrap();
    assert_eq!(proposal.proposal_type, ProposalType::EmergencyBrake);
    assert_eq!(proposal.approval_threshold, 66);
    assert_eq!(proposal.emergency_scope, EmergencyScope::Full);
}

#[test]
fn test_proposal_finalization_with_quorum() {
    let mut governance = GovernanceModule::new();
    let proposer = create_test_address(1);
    let voter1 = create_test_address(2);
    let voter2 = create_test_address(3);

    let proposal_id = governance
        .create_proposal(proposer, "Test".to_string(), "Test".to_string(), vec![], ProposalType::Text, 1000, EmergencyScope::NoScope)
        .unwrap();

    governance.activate_proposal(&proposal_id, 500).unwrap();

    governance.vote(voter1, &proposal_id, true, 600).unwrap();
    governance.vote(voter2, &proposal_id, false, 200).unwrap();

    let result = governance.finalize_proposal(&proposal_id, 1000);
    assert!(result.is_ok());

    let proposal = governance.get_proposal(&proposal_id).unwrap();
    assert_eq!(proposal.state, ProposalState::Timelocked);
}

#[test]
fn test_emergency_proposal_execution() {
    let mut governance = GovernanceModule::new();
    let proposer = create_test_address(1);
    let voter = create_test_address(2);

    let proposal_id = governance
        .create_proposal(
            proposer,
            "Emergency".to_string(),
            "Emergency stop".to_string(),
            vec![],
            ProposalType::EmergencyBrake,
            100,
            EmergencyScope::Full,
        )
        .unwrap();

    governance.activate_proposal(&proposal_id, 50).unwrap();
    governance.vote(voter, &proposal_id, true, 700).unwrap();

    let result = governance.finalize_proposal(&proposal_id, 1000);
    assert!(result.is_ok());

    let proposal = governance.get_proposal(&proposal_id).unwrap();
    assert_eq!(proposal.state, ProposalState::Passed);

    let can_execute = governance.can_execute_proposal(&proposal_id, 75).unwrap();
    assert!(can_execute);
}

#[test]
fn test_governance_parameters() {
    let governance = GovernanceModule::new();
    let params = governance.get_governance_parameters();

    assert_eq!(params.default_approval_threshold, 50);
    assert_eq!(params.emergency_threshold, 66);
    assert_eq!(params.constitutional_threshold, 75);
    assert_eq!(params.timelock_period, 172800);
}

#[test]
fn test_proposal_approval_calculations() {
    let mut governance = GovernanceModule::new();
    let proposer = create_test_address(1);
    let voter1 = create_test_address(2);
    let voter2 = create_test_address(3);

    let proposal_id = governance
        .create_proposal(proposer, "Test".to_string(), "Test".to_string(), vec![], ProposalType::Text, 1000, EmergencyScope::NoScope)
        .unwrap();

    governance.activate_proposal(&proposal_id, 500).unwrap();

    governance.vote(voter1, &proposal_id, true, 300).unwrap();
    governance.vote(voter2, &proposal_id, false, 200).unwrap();

    let approval_pct = governance.get_proposal_approval_percentage(&proposal_id).unwrap();
    assert_eq!(approval_pct, 60);

    let quorum_pct = governance.get_proposal_quorum_percentage(&proposal_id, 1000).unwrap();
    assert_eq!(quorum_pct, 50);
}

#[test]
fn test_timelock_period() {
    let mut governance = GovernanceModule::new();
    let proposer = create_test_address(1);
    let voter = create_test_address(2);

    let proposal_id = governance
        .create_proposal(
            proposer,
            "Normal".to_string(),
            "Normal proposal".to_string(),
            vec![],
            ProposalType::ParameterChange,
            1000,
            EmergencyScope::NoScope,
        )
        .unwrap();

    governance.activate_proposal(&proposal_id, 500).unwrap();
    governance.vote(voter, &proposal_id, true, 600).unwrap();

    governance.finalize_proposal(&proposal_id, 1000).unwrap();

    let proposal = governance.get_proposal(&proposal_id).unwrap();
    assert_eq!(proposal.state, ProposalState::Timelocked);

    let can_execute = governance.can_execute_proposal(&proposal_id, 1001).unwrap();
    assert!(!can_execute);

    let can_execute = governance.can_execute_proposal(&proposal_id, 173000).unwrap();
    assert!(can_execute);
}

#[test]
fn voting_period_is_clamped_and_timelock_follows() {
    let mut governance = GovernanceModule::new();
    let id = governance
        .create_proposal(create_test_address(1), "t".to_string(), "d".to_string(), vec![], ProposalType::Text, 1000, EmergencyScope::NoScope)
        .unwrap();
    let p = governance.get_proposal(&id).unwrap();
    assert_eq!(p.voting_end, 7200);
    assert_eq!(p.timelock_end, 172800);
}

#[test]
fn timelocked_proposal_executes_after_its_timelock() {
    let mut governance = GovernanceModule::new();
    let id = governance
        .create_proposal(create_test_address(1), "t".to_string(), "d".to_string(), vec![], ProposalType::ParameterChange, 1000, EmergencyScope::NoScope)
        .unwrap();
    governance.activate_proposal(&id, 0).unwrap();
    governance.vote(create_test_address(2), &id, true, 600).unwrap();
    governance.finalize_proposal(&id, 1000).unwrap();
    assert!(governance.execute_proposal(&id, 1000).is_err());
    assert!(governance.execute_proposal(&id, 172800).is_ok());
    let p = governance.get_proposal(&id).unwrap();
    assert_eq!(p.state, ProposalState::Executed);
    assert!(p.executed);
}

#[test]
fn low_turnout_is_rejected_and_voting_needs_activation() {
    let mut governance = GovernanceModule::new();
    let id = governance
        .create_proposal(create_test_address(1), "t".to_string(), "d".to_string(), vec![], ProposalType::Text, 1000, EmergencyScope::NoScope)
        .unwrap();
    assert!(governance.vote(create_test_address(2), &id, true, 10).is_err());
    governance.activate_proposal(&id, 0).unwrap();
    governance.vote(create_test_address(2), &id, true, 10).unwrap();
    assert_eq!(governance.finalize_proposal(&id, 1000).unwrap(), ProposalState::Rejected);
    assert_eq!(governance.get_active_proposals().len(), 0);
}
