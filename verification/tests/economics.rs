use tetcore::kernel::economics::{
    FeeModule, InflationConfig, InflationState, StakingModule, TokenSupply, Treasury, TOTAL_SUPPLY,
};
use tetcore::kernel::Address;

fn create_address(i: u8) -> Address {
    let mut bytes = [0u8; 32];
    bytes[31] = i;
    Address(bytes)
}

#[test]
fn economics_test_token_supply_invariant() {
    let supply = TokenSupply::new();
    assert!(supply.verify_invariant());
}

#[test]
fn test_staking_basic() {
    let mut staking = StakingModule::new();
    let staker = create_address(1);

    staking.token_supply.circulating = 1000;
    let shares = staking.stake(staker, 100, 1).unwrap();

    assert_eq!(shares, 100);
    assert_eq!(staking.total_staked, 100);
}

#[test]
fn economics_test_validator_registration() {
    let mut staking = StakingModule::new();
    let validator = create_address(1);

    staking.register_validator(validator, 1000).unwrap();

    let info = staking.get_validator_info(&validator).unwrap();
    assert!(info.active);
    assert_eq!(info.commission_bps, 1000);
}

#[test]
fn test_inflation_disabled_by_default() {
    let config = InflationConfig::default();
    assert_eq!(config.state, InflationState::Disabled);
    assert_eq!(config.compute_mint(1000), 0);
}

#[test]
fn economics_test_fee_distribution() {
    let fee_module = FeeModule::default();
    let (burn, treasury, validators) = fee_module.distribute_fee(1000);

    assert_eq!(burn, 0);
    assert_eq!(treasury, 100);
    assert_eq!(validators, 900);
}

#[test]
fn test_treasury_spend() {
    let mut treasury = Treasury::new();
    treasury.deposit(1000);

    treasury.spend(100).unwrap();
    assert_eq!(treasury.balance, 900);
}

#[test]
fn economics_test_treasury_spend_limit() {
    let mut treasury = Treasury::new();
    treasury.deposit(TOTAL_SUPPLY);

    let result = treasury.spend(treasury.spend_limit_per_proposal + 1);
    assert!(result.is_err());
}

#[test]
fn test_inflation_governance_controls() {
    let mut config = InflationConfig::default();

    config.set_inflation_parameters(500, 1000, 2000, 3000, 7000);
    assert_eq!(config.rate_bps, 500);
    assert_eq!(config.treasury_share_bps, 3000);
    assert_eq!(config.validator_share_bps, 7000);

    config.enable_with_governance();
    assert_eq!(config.state, InflationState::Enabled);

    config.disable_with_governance();
    assert_eq!(config.state, InflationState::Disabled);

    config.set_inflation_cap(1000000);
    assert_eq!(config.cap, 1000000);
}

#[test]
fn test_treasury_governance_controls() {
    let mut treasury = Treasury::new();

    treasury.set_spend_limit(50000);
    assert_eq!(treasury.spend_limit_per_proposal, 50000);

    treasury.deposit(10000);
    let report = treasury.transparency_report();
    assert_eq!(report.current_balance, 10000);
    assert_eq!(report.total_spent, 0);
}

#[test]
fn test_fee_governance_controls() {
    let mut fee_module = FeeModule::default();

    fee_module.set_fee_distribution(10, 20, 70);
    assert_eq!(fee_module.burn_percentage, 10);
    assert_eq!(fee_module.treasury_share, 20);
    assert_eq!(fee_module.validator_share, 70);

    fee_module.set_base_fee(2000);
    assert_eq!(fee_module.base_fee, 2000);

    fee_module.set_congestion_parameters(75);
    assert_eq!(fee_module.target_utilization, 75);

    let report = fee_module.fee_structure_report();
    assert_eq!(report.base_fee, 2000);
    assert_eq!(report.burn_percentage, 10);
}

#[test]
fn test_monetary_policy_scenarios() {
    let mut staking = StakingModule::new();
    let validator = create_address(1);

    staking.register_validator(validator, 1000).unwrap();
    staking.validator_stake(validator, 10000).unwrap();

    staking.distribute_block_rewards(1000);
    let validator_info = staking.get_validator_info(&validator).unwrap();
    assert!(validator_info.pending_rewards > 0);

    staking.inflation_config.enable_with_governance();
    staking.inflation_config.set_inflation_parameters(200, 0, 1000, 2000, 8000);

    let (treasury_mint, validator_mint) = staking.process_inflation(500);
    assert!(treasury_mint > 0);
    assert!(validator_mint > 0);
}

#[test]
fn test_economic_invariants() {
    let mut staking = StakingModule::new();
    let staker = create_address(1);

    staking.token_supply.circulating = 1000;
    staking.token_supply.total = 1000;
    staking.stake(staker, 100, 1).unwrap();

    assert_eq!(staking.token_supply.circulating, 900);
    assert_eq!(staking.token_supply.escrowed, 100);
    assert!(staking.token_supply.verify_invariant());

    staking.inflation_config.enable_with_governance();
    staking.inflation_config.set_inflation_parameters(100, 0, 100, 2000, 8000);
    let (treasury_mint, validator_mint) = staking.process_inflation(50);

    let total_mint = treasury_mint + validator_mint;
    assert_eq!(staking.token_supply.total, 1000 + total_mint);
    assert!(staking.token_supply.verify_invariant());
}

#[test]
fn test_token_supply_creation() {
    let supply = TokenSupply::new();
    assert_eq!(supply.total, TOTAL_SUPPLY);
    assert_eq!(supply.circulating, TOTAL_SUPPLY);
}

#[test]
fn tests_test_token_supply_invariant() {
    let supply = TokenSupply::new();
    assert!(supply.verify_invariant());
}

#[test]
fn test_inflation_config_disabled() {
    let config = InflationConfig::default();
    assert_eq!(config.state, InflationState::Disabled);
    assert_eq!(config.compute_mint(1000), 0);
}

#[test]
fn test_inflation_config_enabled() {
    let config = InflationConfig::new(100);
    assert_eq!(config.state, InflationState::Enabled);
    assert_eq!(config.rate_bps, 100);
}

#[test]
fn test_inflation_distribution() {
    let config = InflationConfig::default();
    let (treasury, validators) = config.distribute(1000);

    assert_eq!(treasury, 200);
    assert_eq!(validators, 800);
}

#[test]
fn test_staking_module_creation() {
    let staking = StakingModule::new();
    assert_eq!(staking.total_staked, 0);
}

#[test]
fn tests_test_validator_registration() {
    let mut staking = StakingModule::new();
    let validator = create_address(1);

    let result = staking.register_validator(validator, 1000);
    assert!(result.is_ok());
}

#[test]
fn test_staking_stake() {
    let mut staking = StakingModule::new();
    let staker = create_address(1);

    staking.token_supply.circulating = 1000;
    let shares = staking.stake(staker, 100, 1).unwrap();

    assert_eq!(shares, 100);
    assert_eq!(staking.total_staked, 100);
}

#[test]
fn test_staking_unstake() {
    let mut staking = StakingModule::new();
    let staker = create_address(1);

    staking.token_supply.circulating = 1000;
    staking.stake(staker, 100, 1).unwrap();

    let result = staking.unstake(staker, 50, 2);
    assert!(result.is_ok());
}

#[test]
fn test_fee_module_default() {
    let fee = FeeModule::default();
    assert_eq!(fee.base_fee, 1000);
}

#[test]
fn test_fee_computation() {
    let fee = FeeModule::default();
    let total = fee.compute_fee(21000);

    assert!(total > 0);
}

#[test]
fn tests_test_fee_distribution() {
    let fee = FeeModule::default();
    let (burn, treasury, validators) = fee.distribute_fee(1000);

    assert_eq!(burn, 0);
    assert_eq!(treasury, 100);
    assert_eq!(validators, 900);
}

#[test]
fn test_treasury_deposit_spend() {
    let mut treasury = Treasury::new();

    treasury.deposit(1000);
    assert_eq!(treasury.balance, 1000);

    treasury.spend(100).unwrap();
    assert_eq!(treasury.balance, 900);
}

#[test]
fn tests_test_treasury_spend_limit() {
    let mut treasury = Treasury::new();
    treasury.deposit(TOTAL_SUPPLY);

    let limit = treasury.spend_limit_per_proposal;
    let result = treasury.spend(limit + 1);
    assert!(result.is_err());
}

#[test]
fn unstake_returns_staked_amount_and_keeps_supply_balanced() {
    let mut staking = StakingModule::new();
    let staker = create_address(7);
    staking.token_supply.circulating = 1000;
    staking.token_supply.total = 1000;
    staking.stake(staker, 400, 1).unwrap();
    let back = staking.unstake(staker, 100, 2).unwrap();
    assert_eq!(back, 100);
    assert_eq!(staking.total_staked, 300);
    assert_eq!(staking.token_supply.circulating, 700);
    assert!(staking.token_supply.verify_invariant());
}

#[test]
fn stake_of_zero_is_refused() {
    let mut staking = StakingModule::new();
    staking.token_supply.circulating = 10;
    assert!(staking.stake(create_address(1), 0, 1).is_err());
    assert_eq!(staking.total_staked, 0);
}

#[test]
fn inflation_distribution_sums_to_amount() {
    let mut config = InflationConfig::default();
    config.set_inflation_parameters(100, 0, 10, 3333, 6667);
    let (t, v) = config.distribute(1001);
    assert_eq!(t + v, 1001);
}

#[test]
fn fee_distribution_sums_to_amount() {
    let mut fee = FeeModule::default();
    fee.set_fee_distribution(10, 20, 70);
    let (b, t, v) = fee.distribute_fee(999);
    assert_eq!(b + t + v, 999);
}

#[test]
fn test_stake_then_unstake_returns_no_more() {
    let mut staking = StakingModule::new();
    let first = create_address(1);
    let second = create_address(2);

    staking.token_supply.circulating = 1000;
    staking.stake(first, 300, 1).unwrap();
    let shares = staking.stake(second, 70, 1).unwrap();
    let back = staking.unstake(second, shares, 2).unwrap();

    assert!(back <= 70);
    assert_eq!(back, 70);
}
