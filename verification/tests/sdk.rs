use tetcore::kernel::sdk::{
    GenesisAccount, GenesisConfig, ModuleId, ModuleState, NetworkIdentity, RuntimeParametersBuilder, RuntimeValue,
};
use tetcore::kernel::Address;

#[test]
fn sdk_test_genesis_config() {
    let config = GenesisConfig::new("test".to_string(), "testnet".to_string(), 1)
        .with_validator(Address([1u8; 32]))
        .with_account(GenesisAccount::new(Address([2u8; 32]), 1000));

    assert!(config.verify().is_ok());
}

#[test]
fn sdk_test_runtime_parameters() {
    let params = RuntimeParametersBuilder::new()
        .set("max_validators", 100u64)
        .set("block_time", 5000u64)
        .set("enable_inflation", false)
        .build();

    assert_eq!(params.get_u64("max_validators", 0), 100);
    assert_eq!(params.get_bool("enable_inflation", true), false);
}

#[test]
fn sdk_test_module_state_root() {
    let mut state = ModuleState::new();
    state.set(b"key1".to_vec(), b"value1".to_vec());
    state.set(b"key2".to_vec(), b"value2".to_vec());

    let root = state.root();
    assert!(!root.0.iter().all(|&b| b == 0));
}

#[test]
fn sdk_test_network_identity() {
    let config = GenesisConfig::new("test".to_string(), "testnet".to_string(), 1);
    let identity = NetworkIdentity::new("testnet".to_string(), 1, &config);

    assert_eq!(identity.chain_id, 1);
}

#[test]
fn tests_test_genesis_config() {
    let config = GenesisConfig::new("test".to_string(), "testnet".to_string(), 1)
        .with_validator(Address([1u8; 32]))
        .with_account(GenesisAccount::new(Address([2u8; 32]), 1000));

    assert!(config.verify().is_ok());
}

#[test]
fn tests_test_runtime_parameters() {
    let params = RuntimeParametersBuilder::new()
        .set("max_validators", 100u64)
        .set("block_time", 5000u64)
        .set("enable_inflation", false)
        .build();

    assert_eq!(params.get_u64("max_validators", 0), 100);
    assert_eq!(params.get_bool("enable_inflation", true), false);
}

#[test]
fn tests_test_module_state_root() {
    let mut state = ModuleState::new();
    state.set(b"key1".to_vec(), b"value1".to_vec());
    state.set(b"key2".to_vec(), b"value2".to_vec());

    let root = state.root();
    assert!(!root.0.iter().all(|&b| b == 0));
}

#[test]
fn tests_test_network_identity() {
    let config = GenesisConfig::new("test".to_string(), "testnet".to_string(), 1);
    let identity = NetworkIdentity::new("testnet".to_string(), 1, &config);

    assert_eq!(identity.chain_id, 1);
}

#[test]
fn test_runtime_value() {
    let v1: RuntimeValue = 42u64.into();
    assert_eq!(v1.as_u64(), Some(42));

    let v2: RuntimeValue = true.into();
    assert_eq!(v2.as_bool(), Some(true));
}

#[test]
fn genesis_config_without_validators_verifies() {
    let config = GenesisConfig::new("test".to_string(), "testnet".to_string(), 1);
    assert!(config.verify().is_ok());
}

#[test]
fn module_state_root_depends_on_contents() {
    let mut a = ModuleState::new();
    a.set(b"key1".to_vec(), b"value1".to_vec());
    let mut b = ModuleState::new();
    b.set(b"key1".to_vec(), b"value2".to_vec());
    assert_ne!(a.root().0, b.root().0);
    b.set(b"key1".to_vec(), b"value1".to_vec());
    assert_eq!(a.root().0, b.root().0);
}

#[test]
fn missing_parameter_gives_default() {
    let params = RuntimeParametersBuilder::new().set("x", 7u64).build();
    assert_eq!(params.get_u64("y", 3), 3);
    assert_eq!(params.get_bool("x", true), true);
}

#[test]
fn module_id_from_name_is_digest_prefix() {
    let a = ModuleId::from_name("accounts");
    let b = ModuleId::from_name("accounts");
    let c = ModuleId::from_name("staking");
    assert_eq!(a.0, b.0);
    assert_ne!(a.0, c.0);
}
