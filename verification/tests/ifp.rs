use tetcore::kernel::ifp::{
    InferenceModule, PricingMode, PricingPolicy, PromptCommitment, RelayMode, RevenueDistribution, RevenueSplit,
};
use tetcore::kernel::{Address, Hash32};

fn create_address(i: u8) -> Address {
    let mut bytes = [0u8; 32];
    bytes[31] = i;
    Address(bytes)
}

fn create_hash(i: u8) -> Hash32 {
    let mut bytes = [0u8; 32];
    bytes[31] = i;
    Hash32(bytes)
}

#[test]
fn ifp_test_model_registration() {
    let mut module = InferenceModule::new();
    let owner = create_address(1);
    let shard_root = create_hash(1);

    let result = module.register_model(owner, shard_root, 4, PricingPolicy::default(), RevenueSplit::default_ifp());

    assert!(result.is_ok());
}

#[test]
fn ifp_test_prompt_submission() {
    let mut module = InferenceModule::new();
    let owner = create_address(1);
    let sender = create_address(2);
    let shard_root = create_hash(1);

    let model = module
        .register_model(owner, shard_root, 4, PricingPolicy::default(), RevenueSplit::default_ifp())
        .unwrap();

    module.activate_model(&model.model_id).unwrap();

    let commitment = PromptCommitment::new(b"test prompt", vec![1, 2, 3]);

    let result = module.submit_prompt(
        model.model_id,
        1,
        sender,
        commitment,
        100,
        10000,
        RelayMode::Direct,
        PricingMode::Owner,
        1000,
    );

    assert!(result.is_ok());
}

#[test]
fn ifp_test_revenue_distribution() {
    let split = RevenueSplit::default_ifp();
    let distribution = RevenueDistribution::distribute(10000, &split);

    assert_eq!(distribution.operator_amount, 7000);
    assert_eq!(distribution.owner_amount, 2000);
    assert_eq!(distribution.shard_provider_amount, 500);
    assert_eq!(distribution.validator_amount, 400);
    assert_eq!(distribution.treasury_amount, 100);
}

#[test]
fn ifp_test_pricing_computation() {
    let policy = PricingPolicy {
        mode: PricingMode::Owner,
        base_price: 1000,
        per_token_price: 10,
        complexity_multiplier: 100,
        latency_multiplier: 100,
    };

    let price = policy.compute_price(100, 200);
    assert!(price >= 1000);
}

#[test]
fn tests_test_model_registration() {
    let mut module = InferenceModule::new();
    let owner = create_address(1);
    let shard_root = create_hash(1);

    let result = module.register_model(owner, shard_root, 4, PricingPolicy::default(), RevenueSplit::default_ifp());

    assert!(result.is_ok());
}

#[test]
fn test_model_activation() {
    let mut module = InferenceModule::new();
    let owner = create_address(1);
    let shard_root = create_hash(1);

    let model = module
        .register_model(owner, shard_root, 4, PricingPolicy::default(), RevenueSplit::default_ifp())
        .unwrap();

    let result = module.activate_model(&model.model_id);
    assert!(result.is_ok());
}

#[test]
fn tests_test_prompt_submission() {
    let mut module = InferenceModule::new();
    let owner = create_address(1);
    let sender = create_address(2);
    let shard_root = create_hash(1);

    let model = module
        .register_model(owner, shard_root, 4, PricingPolicy::default(), RevenueSplit::default_ifp())
        .unwrap();

    module.activate_model(&model.model_id).unwrap();

    let commitment = PromptCommitment::new(b"test prompt", vec![1, 2, 3]);

    let result = module.submit_prompt(
        model.model_id,
        1,
        sender,
        commitment,
        100,
        10000,
        RelayMode::Direct,
        PricingMode::Owner,
        1000,
    );

    assert!(result.is_ok());
}

#[test]
fn tests_test_revenue_distribution() {
    let split = RevenueSplit::default_ifp();
    let distribution = RevenueDistribution::distribute(10000, &split);

    assert_eq!(distribution.operator_amount, 7000);
    assert_eq!(distribution.owner_amount, 2000);
    assert_eq!(distribution.shard_provider_amount, 500);
    assert_eq!(distribution.validator_amount, 400);
    assert_eq!(distribution.treasury_amount, 100);
}

#[test]
fn tests_test_pricing_computation() {
    let policy = PricingPolicy {
        mode: PricingMode::Owner,
        base_price: 1000,
        per_token_price: 10,
        complexity_multiplier: 100,
        latency_multiplier: 100,
    };

    let price = policy.compute_price(100, 200);
    assert!(price >= 1000);
}

#[test]
fn test_prompt_commitment_verification() {
    let commitment = PromptCommitment::new(b"test prompt", vec![1, 2, 3]);
    assert!(commitment.verify(b"test prompt"));
}

#[test]
fn test_ifp_model_prompt_flow() {
    let mut ifp = InferenceModule::new();

    let owner = create_address(1);
    let model = ifp
        .register_model(owner, Hash32::from_slice(&[1u8; 32]), 4, PricingPolicy::default(), RevenueSplit::default_ifp())
        .unwrap();

    ifp.activate_model(&model.model_id).unwrap();

    let sender = create_address(2);
    let commitment = PromptCommitment::new(b"test prompt", vec![1, 2, 3]);

    let _prompt = ifp
        .submit_prompt(model.model_id, 1, sender, commitment, 100, 10000, RelayMode::Direct, PricingMode::Owner, 1000)
        .unwrap();

    assert_eq!(ifp.pending_prompt_count(), 1);
}

#[test]
fn commitment_does_not_open_to_other_prompt() {
    let commitment = PromptCommitment::new(b"test prompt", vec![1, 2, 3]);
    assert!(!commitment.verify(b"other prompt"));
}

#[test]
fn revenue_split_must_sum_to_whole() {
    assert!(RevenueSplit::new(7000, 2000, 500, 400, 100).is_ok());
    assert!(RevenueSplit::new(7000, 2000, 500, 400, 99).is_err());
}

#[test]
fn revenue_distribution_total_is_fee() {
    let split = RevenueSplit::default_ifp();
    let d = RevenueDistribution::distribute(12345, &split);
    assert!(d.total() <= 12345);
    assert!(12345 - d.total() < 5);
}

#[test]
fn pricing_mode_codes_round_trip() {
    for m in [PricingMode::Owner, PricingMode::Market, PricingMode::Hybrid] {
        assert_eq!(PricingMode::from_u8(m.to_u8()), Some(m));
    }
    assert_eq!(PricingMode::from_u8(3), None);
}

#[test]
fn prompt_for_unregistered_model_is_refused() {
    let mut ifp = InferenceModule::new();
    let commitment = PromptCommitment::new(b"p", vec![]);
    let r = ifp.submit_prompt(create_hash(9), 1, create_address(2), commitment, 100, 10000, RelayMode::Direct, PricingMode::Owner, 10);
    assert!(r.is_err());
    assert_eq!(ifp.pending_prompt_count(), 0);
}
