use tetcore::kernel::consensus::{
    ConsensusEngine, FinalitySignature, ForkChoice, ForkChoiceRule, Precommit, Prevote, Proposal, RoundState,
    ValidatorInfo, ValidatorSet,
};
use tetcore::kernel::{Address, Hash32};

fn create_validator(i: u8) -> ValidatorInfo {
    let mut bytes = [0u8; 32];
    bytes[31] = i;
    ValidatorInfo::new(Address(bytes), (i as u128) * 1000)
}

#[test]
fn test_validator_set_proposer_selection() {
    let mut validators = Vec::new();
    for i in 1..=4 {
        validators.push(create_validator(i));
    }
    let validator_set = ValidatorSet::with_validators(validators);

    let proposer0 = validator_set.get_proposer(0, 0);
    let proposer1 = validator_set.get_proposer(0, 1);
    let proposer2 = validator_set.get_proposer(0, 2);
    let proposer3 = validator_set.get_proposer(0, 3);

    assert!(proposer0.is_some());
    assert!(proposer1.is_some());
    assert!(proposer2.is_some());
    assert!(proposer3.is_some());
}

#[test]
fn test_quorum_size() {
    let validators = vec![create_validator(1), create_validator(2), create_validator(3)];
    let validator_set = ValidatorSet::with_validators(validators);
    assert_eq!(validator_set.quorum_size(), 3);

    let validators = vec![
        create_validator(1),
        create_validator(2),
        create_validator(3),
        create_validator(4),
        create_validator(5),
        create_validator(6),
    ];
    let validator_set = ValidatorSet::with_validators(validators);
    assert_eq!(validator_set.quorum_size(), 5);
}

#[test]
fn test_consensus_engine_proposer() {
    let validators = vec![create_validator(1), create_validator(2), create_validator(3)];
    let mut engine = ConsensusEngine::with_validators(validators);

    engine.start_new_round(1, 0);
    let proposer = engine.get_proposer();

    assert!(proposer.is_some());
}

#[test]
fn consensus_test_fork_choice_rule() {
    let current_head = Hash32::from_slice(&[1u8; 32]);
    let left_hash = Hash32::from_slice(&[2u8; 32]);
    let right_hash = Hash32::from_slice(&[3u8; 32]);

    let choice = ForkChoiceRule::choose_fork(current_head, 10, left_hash, 12, right_hash, 11);
    assert_eq!(choice, ForkChoice::Left);
}

#[test]
fn test_validator_set_creation() {
    let validators = vec![create_validator(1), create_validator(2), create_validator(3)];
    let set = ValidatorSet::with_validators(validators);
    assert_eq!(set.len(), 3);
}

#[test]
fn test_validator_set_quorum() {
    let validators = vec![create_validator(1), create_validator(2), create_validator(3)];
    let set = ValidatorSet::with_validators(validators);
    assert_eq!(set.quorum_size(), 3);

    let validators = (1..=6).map(create_validator).collect();
    let set = ValidatorSet::with_validators(validators);
    assert_eq!(set.quorum_size(), 5);
}

#[test]
fn test_proposer_selection() {
    let validators = (1..=4).map(create_validator).collect();
    let set = ValidatorSet::with_validators(validators);

    let p0 = set.get_proposer(0, 0);
    let p1 = set.get_proposer(0, 1);
    let p2 = set.get_proposer(0, 2);
    let p3 = set.get_proposer(0, 3);
    let p4 = set.get_proposer(0, 4);

    assert!(p0.is_some());
    assert!(p1.is_some());
    assert!(p2.is_some());
    assert!(p3.is_some());
    assert!(p4.is_some());
}

#[test]
fn test_proposal_creation() {
    let proposer = create_validator(1).address;
    let proposal = Proposal::new(1, 0, Hash32::empty(), proposer);

    assert_eq!(proposal.height, 1);
    assert_eq!(proposal.round, 0);
}

#[test]
fn test_prevote_creation() {
    let voter = create_validator(1).address;
    let prevote = Prevote::new(1, 0, Some(Hash32::empty()), voter);

    assert_eq!(prevote.height, 1);
    assert!(!prevote.is_nil());
}

#[test]
fn test_precommit_creation() {
    let voter = create_validator(1).address;
    let precommit = Precommit::new(1, 0, None, voter);

    assert!(precommit.is_nil());
}

#[test]
fn test_consensus_engine_new_round() {
    let validators = (1..=4).map(create_validator).collect();
    let mut engine = ConsensusEngine::with_validators(validators);

    engine.start_new_round(1, 0);

    assert_eq!(engine.height, 1);
    assert_eq!(engine.round, 0);
    assert!(engine.current_round.is_some());
}

#[test]
fn test_finality_signature() {
    let mut sig = FinalitySignature::new(Hash32::empty(), 1, 0);

    let validator = create_validator(1).address;
    sig.add_signature(validator, vec![1, 2, 3]);

    assert_eq!(sig.signatures.len(), 1);
}

#[test]
fn tests_test_fork_choice_rule() {
    let left_hash = Hash32::from_slice(&[2u8; 32]);
    let right_hash = Hash32::from_slice(&[3u8; 32]);

    let choice = ForkChoiceRule::choose_fork(Hash32::empty(), 10, left_hash, 12, right_hash, 11);
    assert_eq!(choice, ForkChoice::Left);
}

#[test]
fn fork_choice_breaks_ties_by_hash() {
    let a = Hash32::from_slice(&[2u8; 32]);
    let b = Hash32::from_slice(&[3u8; 32]);
    assert_eq!(ForkChoiceRule::choose_fork(Hash32::empty(), 10, a, 11, b, 11), ForkChoice::Right);
    assert_eq!(ForkChoiceRule::choose_fork(Hash32::empty(), 10, b, 11, a, 11), ForkChoice::Left);
    assert_eq!(ForkChoiceRule::choose_fork(Hash32::empty(), 10, a, 11, b, 12), ForkChoice::Right);
    assert_eq!(ForkChoiceRule::choose_fork(Hash32::empty(), 20, a, 12, b, 11), ForkChoice::Neither);
}

#[test]
fn round_state_cycles_through_steps() {
    let s = RoundState::Propose;
    assert_eq!(s.next(), RoundState::Prevote);
    assert_eq!(s.next().next(), RoundState::Precommit);
    assert_eq!(s.next().next().next(), RoundState::Finalized);
    assert_eq!(RoundState::Finalized.next(), RoundState::Finalized);
}

#[test]
fn proposer_rotates_over_sorted_set() {
    let validators = (1..=4).map(create_validator).collect();
    let set = ValidatorSet::with_validators(validators);
    let a = set.get_proposer(0, 0).unwrap();
    let b = set.get_proposer(0, 4).unwrap();
    assert_eq!(a, b);
    assert!(ValidatorSet::new().get_proposer(0, 0).is_none());
}

#[test]
fn precommit_quorum_finalizes_the_round() {
    let validators: Vec<ValidatorInfo> = (1..=4).map(create_validator).collect();
    let mut engine = ConsensusEngine::with_validators(validators.clone());
    engine.start_new_round(1, 0);
    let block = Hash32([9u8; 32]);
    assert!(engine.receive_proposal(Proposal::new(1, 0, block, validators[0].address)));

    for v in &validators[..2] {
        assert!(engine.receive_precommit(Precommit::new(1, 0, Some(block), v.address)));
        assert!(!engine.has_finality());
    }
    assert!(!engine.receive_precommit(Precommit::new(1, 0, Some(block), validators[0].address)));
    assert!(engine.receive_precommit(Precommit::new(1, 0, Some(block), validators[2].address)));
    assert!(engine.has_finality());
    assert_eq!(engine.current_round.as_ref().unwrap().state, RoundState::Finalized);
    assert_eq!(engine.get_finalized_block(), Some(block));
}
