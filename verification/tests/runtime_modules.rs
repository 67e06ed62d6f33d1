use tetcore::kernel::{Address, Hash32};
use tetcore::runtime::accounts::AccountsModule;
use tetcore::runtime::inference::{InferenceModule, PromptState};
use tetcore::runtime::model_registry::{Model, ModelRegistryModule, ModelState, PricingMode, PricingPolicy, RevenueSplit};
use tetcore::runtime::revenue::{RecipientType, RevenueModule, RevenueRoute};
use tetcore::runtime::vault::{VaultModule, VaultState};
use tetcore::runtime::Runtime;
use tetcore::table::Table;

fn addr(i: u8) -> Address {
    let mut b = [0u8; 32];
    b[31] = i;
    Address(b)
}

fn model(id: u8, split: RevenueSplit) -> Model {
    Model {
        model_id: Hash32([id; 32]),
        owner: addr(1),
        version: 1,
        shard_root: Hash32([9u8; 32]),
        shard_count: 4,
        state: ModelState::Registered,
        pricing_policy: PricingPolicy { mode: PricingMode::Owner, base_fee: 10, token_per_char: 1 },
        revenue_split: split,
        vault_enabled: false,
    }
}

#[test]
fn accounts_transfer_moves_balance_and_creates_recipient() {
    let mut accounts = AccountsModule::new();
    accounts.create_account(addr(1), 1000);
    accounts.transfer(&addr(1), &addr(2), 300).unwrap();
    assert_eq!(accounts.get_account(&addr(1)).unwrap().balance, 700);
    assert_eq!(accounts.get_account(&addr(2)).unwrap().balance, 300);
    assert!(accounts.transfer(&addr(1), &addr(2), 701).is_err());
    assert!(accounts.transfer(&addr(3), &addr(2), 1).is_err());
    accounts.increment_nonce(&addr(1)).unwrap();
    assert_eq!(accounts.get_account(&addr(1)).unwrap().nonce, 1);
}

#[test]
fn registry_refuses_invalid_split() {
    let mut registry = ModelRegistryModule::new();
    let mut bad = RevenueSplit::default();
    bad.vault_bps = 999;
    assert!(registry.register_model(model(1, bad)).is_err());
    registry.register_model(model(1, RevenueSplit::default())).unwrap();
    assert!(!registry.is_active(&Hash32([1u8; 32])));
    registry.set_model_state(&Hash32([1u8; 32]), ModelState::Active).unwrap();
    assert!(registry.is_active(&Hash32([1u8; 32])));
    assert!(registry.update_version(&Hash32([2u8; 32]), 2, Hash32([3u8; 32])).is_err());
}

#[test]
fn inference_lifecycle_and_settlement() {
    let mut inference = InferenceModule::new();
    let prompt_id = inference.submit_prompt(Hash32([1u8; 32]), 1, addr(2), vec![1, 2, 3], 10000, 5).unwrap();
    assert!(inference.execute_prompt(&prompt_id).is_err());
    inference.lock_prompt(&prompt_id, 500).unwrap();
    inference.execute_prompt(&prompt_id).unwrap();
    let receipt_id = inference.submit_receipt(&prompt_id, addr(3), vec![7], vec![], 6).unwrap();
    assert_eq!(inference.get_prompt(&prompt_id).unwrap().state, PromptState::Completed);
    let settlement = inference.create_settlement(&receipt_id, &Hash32([1u8; 32]), &RevenueSplit::default()).unwrap();
    assert_eq!(settlement.total_fee, 10000);
    assert_eq!(settlement.model_owner_amount, 3000);
    assert_eq!(settlement.operator_amount, 3000);
    assert_eq!(settlement.shard_provider_amount, 2000);
    assert_eq!(settlement.validator_amount, 1000);
    assert_eq!(settlement.vault_amount, 1000);
    inference.mark_settled(&receipt_id).unwrap();
    assert!(inference.get_settlement(&receipt_id).unwrap().settled);
}

#[test]
fn revenue_distribution_pays_each_route_once() {
    let mut revenue = RevenueModule::new();
    let routes = vec![
        RevenueRoute { recipient: addr(1), basis_points: 7000, recipient_type: RecipientType::Operator },
        RevenueRoute { recipient: addr(2), basis_points: 3000, recipient_type: RecipientType::ModelOwner },
    ];
    let id = revenue.create_distribution(addr(9), routes, 1000, 1).unwrap();
    let mut balances: Table<Address, u128> = Table::new();
    let paid = revenue.distribute(&id, &mut balances).unwrap();
    assert_eq!(paid.len(), 2);
    assert_eq!(paid[0].1, 700);
    assert_eq!(paid[1].1, 300);
    assert_eq!(*balances.get(&addr(1)).unwrap(), 700);
    assert!(revenue.distribute(&id, &mut balances).is_err());
    let bad = vec![RevenueRoute { recipient: addr(1), basis_points: 5000, recipient_type: RecipientType::Operator }];
    assert!(revenue.create_distribution(addr(9), bad, 1000, 1).is_err());
    assert_eq!(revenue.pending_count(), 1);
}

#[test]
fn revenue_fee_and_routes() {
    let revenue = RevenueModule::new();
    assert_eq!(revenue.calculate_fee(10, 20, 100, 2), 160);
    let routes = revenue.route_revenue(1000, &RevenueSplit::default(), addr(1), addr(2), addr(3));
    assert_eq!(routes.len(), 4);
    assert_eq!(routes[3].basis_points, 3000);
}

#[test]
fn vault_stake_unstake_and_rewards() {
    let mut vaults = VaultModule::new();
    let id = vaults.create_vault(Hash32([1u8; 32]), addr(1), 1000, 1).unwrap();
    let shares = vaults.stake(&id, addr(2), 500).unwrap();
    assert_eq!(shares, 500);
    assert_eq!(vaults.get_vault(&id).unwrap().total_staked, 1500);
    vaults.distribute_reward(&id, 300).unwrap();
    assert_eq!(vaults.claim_rewards(&id, &addr(2)).unwrap(), 100);
    let back = vaults.unstake(&id, &addr(2), 500).unwrap();
    assert_eq!(back, 499);
    assert_eq!(vaults.get_shares(&addr(2)).unwrap().len(), 0);
    vaults.pause_vault(&id).unwrap();
    assert!(vaults.stake(&id, addr(2), 1).is_err());
    assert_eq!(vaults.get_vault(&id).unwrap().state, VaultState::Paused);
    vaults.resume_vault(&id).unwrap();
    assert!(vaults.resume_vault(&id).is_err());
}

#[test]
fn runtime_modules_start_empty() {
    let runtime = Runtime::new();
    assert!(!runtime.accounts().account_exists(&addr(1)));
    assert!(runtime.model_registry().get_model(&Hash32([1u8; 32])).is_none());
    assert_eq!(runtime.governance().get_governance_parameters().timelock_period, 172800);
}
