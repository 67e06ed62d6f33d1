use tetcore::runtime::model_registry::ModelState;
use tetcore::kernel::{Address, Hash32};
use tetcore::node::operator::{
    ExecutionStatus, InferenceOperator, ModelRegistry, OperatorConfig, OperatorError, Prompt,
};
use tetcore::primitives::api::PromptCommitment;

fn create_test_operator() -> InferenceOperator {
    let config = OperatorConfig {
        operator_address: Address::from_bytes([1u8; 32]),
        supported_models: vec![Hash32::empty()],
        ..Default::default()
    };
    let model_registry = ModelRegistry::new();
    InferenceOperator::new(config, model_registry)
}

fn create_test_prompt() -> Prompt {
    Prompt {
        prompt_id: Hash32::empty(),
        model_id: Hash32::empty(),
        client: Address::from_bytes([2u8; 32]),
        input_tokens: 256,
        max_output_tokens: 512,
        compute_limit: 50000,
        pricing_mode: 0,
        relay_mode: 0,
        deadline_height: 1000,
        prompt_commitment: PromptCommitment::default(),
        escrow_amount: 1000,
        escrow_release_height: 1001,
    }
}

#[test]
fn test_operator_creation() {
    let operator = create_test_operator();
    assert_eq!(operator.get_config().supported_models.len(), 1);
    assert_eq!(operator.get_active_executions().len(), 0);
}

#[test]
fn test_prompt_acceptance() {
    let mut operator = create_test_operator();
    let prompt = create_test_prompt();

    let result = operator.accept_prompt(&prompt, 500);
    assert!(result.is_ok());
    assert_eq!(operator.get_active_executions().len(), 1);
}

#[test]
fn test_prompt_execution() {
    let mut operator = create_test_operator();
    let prompt = create_test_prompt();

    operator.accept_prompt(&prompt, 500).unwrap();
    let result = operator.execute_prompt(&prompt.prompt_id);
    assert!(result.is_ok());

    let executions = operator.get_active_executions();
    assert_eq!(executions[0].status, ExecutionStatus::Completed);
}

#[test]
fn test_receipt_generation() {
    let mut operator = create_test_operator();
    let prompt = create_test_prompt();

    operator.accept_prompt(&prompt, 500).unwrap();
    operator.execute_prompt(&prompt.prompt_id).unwrap();

    let receipt = operator.generate_receipt(&prompt.prompt_id);
    assert!(receipt.is_ok());
    assert_eq!(receipt.unwrap().operator, operator.get_config().operator_address);
}

#[test]
fn test_deadline_enforcement() {
    let mut operator = create_test_operator();
    let prompt = create_test_prompt();

    let result = operator.accept_prompt(&prompt, 1001);
    assert!(matches!(result, Err(OperatorError::DeadlineExpired)));
}

#[test]
fn receipt_submission_moves_execution_to_history() {
    let mut operator = create_test_operator();
    let prompt = create_test_prompt();

    operator.accept_prompt(&prompt, 500).unwrap();
    operator.execute_prompt(&prompt.prompt_id).unwrap();
    let receipt = operator.generate_receipt(&prompt.prompt_id).unwrap();

    assert!(operator.submit_receipt(receipt, 999).is_ok());
    assert_eq!(operator.economic_compliance.valid_receipts, 1);
    assert_eq!(operator.get_active_executions().len(), 0);
    assert_eq!(operator.get_execution_history().len(), 1);
    assert_eq!(operator.get_execution_history()[0].status, ExecutionStatus::ReceiptSubmitted);
}

#[test]
fn overclaiming_receipt_is_a_violation() {
    let mut operator = create_test_operator();
    let prompt = create_test_prompt();
    operator.accept_prompt(&prompt, 500).unwrap();
    operator.execute_prompt(&prompt.prompt_id).unwrap();
    let mut receipt = operator.generate_receipt(&prompt.prompt_id).unwrap();
    receipt.output_tokens = 513;
    let r = operator.submit_receipt(receipt, 999);
    assert!(matches!(r, Err(OperatorError::EconomicComplianceViolation)));
    assert_eq!(operator.economic_compliance.compliance_violations, 1);
    assert_eq!(operator.get_active_executions().len(), 1);
}

#[test]
fn unsupported_or_inactive_model_is_refused() {
    let config = OperatorConfig { supported_models: vec![], ..Default::default() };
    let mut operator = InferenceOperator::new(config, ModelRegistry::new());
    assert!(matches!(operator.accept_prompt(&create_test_prompt(), 1), Err(OperatorError::ModelNotFound)));

    let mut registry = ModelRegistry::new();
    registry.set_model_state(Hash32::empty(), ModelState::Paused);
    let config = OperatorConfig { supported_models: vec![Hash32::empty()], ..Default::default() };
    let mut operator = InferenceOperator::new(config, registry);
    assert!(matches!(operator.accept_prompt(&create_test_prompt(), 1), Err(OperatorError::ModelNotFound)));
}

#[test]
fn execution_needs_a_pending_prompt() {
    let mut operator = create_test_operator();
    assert!(matches!(operator.execute_prompt(&Hash32::empty()), Err(OperatorError::PromptVerificationFailed)));
    operator.accept_prompt(&create_test_prompt(), 500).unwrap();
    let out = operator.execute_prompt(&Hash32::empty()).unwrap();
    assert_eq!(out.len(), 1024);
    assert!(matches!(operator.execute_prompt(&Hash32::empty()), Err(OperatorError::ExecutionFailed)));
}
