use tetcore::kernel::runtime::{BlockHeader, PoolTransaction, RuntimeBuilder, TetcoreRuntime, TransactionPool};
use tetcore::kernel::{Address, Hash32};

fn create_address(i: u8) -> Address {
    let mut bytes = [0u8; 32];
    bytes[31] = i;
    Address(bytes)
}

#[test]
fn runtime_test_runtime_creation() {
    let runtime = RuntimeBuilder::new(1)
        .with_account(Address([1u8; 32]), 1000)
        .with_validator(Address([2u8; 32]), 500)
        .build();

    assert_eq!(runtime.chain_id, 1);
    assert_eq!(runtime.get_balance(&Address([1u8; 32])), 1000);
}

#[test]
fn runtime_test_account_transfer() {
    let mut runtime = RuntimeBuilder::new(1)
        .with_account(Address([1u8; 32]), 1000)
        .with_account(Address([2u8; 32]), 0)
        .build();

    runtime.transfer(&Address([1u8; 32]), &Address([2u8; 32]), 500).unwrap();

    assert_eq!(runtime.get_balance(&Address([1u8; 32])), 500);
    assert_eq!(runtime.get_balance(&Address([2u8; 32])), 500);
}

#[test]
fn runtime_test_block_execution() {
    let mut runtime = RuntimeBuilder::new(1).with_account(Address([1u8; 32]), 10000).build();

    let tx_data = vec![1u8; 48];
    let result = runtime.execute_block(vec![tx_data]);

    assert!(result.is_ok());
    assert_eq!(runtime.block_number, 1);
}

#[test]
fn tests_test_runtime_creation() {
    let runtime = RuntimeBuilder::new(1)
        .with_account(create_address(1), 1000)
        .with_validator(create_address(2), 500)
        .build();

    assert_eq!(runtime.chain_id, 1);
}

#[test]
fn test_account_creation() {
    let mut runtime = TetcoreRuntime::new(1);
    runtime.create_account(create_address(1), 1000);

    assert_eq!(runtime.get_balance(&create_address(1)), 1000);
}

#[test]
fn tests_test_account_transfer() {
    let mut runtime = RuntimeBuilder::new(1)
        .with_account(create_address(1), 1000)
        .with_account(create_address(2), 0)
        .build();

    runtime.transfer(&create_address(1), &create_address(2), 500).unwrap();

    assert_eq!(runtime.get_balance(&create_address(1)), 500);
    assert_eq!(runtime.get_balance(&create_address(2)), 500);
}

#[test]
fn tests_test_block_execution() {
    let mut runtime = RuntimeBuilder::new(1).with_account(create_address(1), 10000).build();

    let tx_data = vec![1u8; 48];
    let result = runtime.execute_block(vec![tx_data]);

    assert!(result.is_ok());
    assert_eq!(runtime.block_number, 1);
}

#[test]
fn test_block_header() {
    let header = BlockHeader::new(Hash32::empty(), 1);

    assert_eq!(header.block_number, 1);

    let hash = header.hash();
    assert!(!hash.0.iter().all(|&b| b == 0));
}

#[test]
fn test_transaction_pool() {
    let mut pool = TransactionPool::new();

    pool.add(PoolTransaction { tx_hash: Hash32::empty(), sender: create_address(1), nonce: 0, gas_price: 1, data: vec![] });

    assert_eq!(pool.pending.len(), 1);
}

#[test]
fn test_full_runtime_lifecycle() {
    let mut runtime = RuntimeBuilder::new(1)
        .with_account(create_address(1), 100000)
        .with_account(create_address(2), 100000)
        .with_validator(create_address(3), 10000)
        .build();

    runtime.transfer(&create_address(1), &create_address(2), 1000).unwrap();
    assert_eq!(runtime.get_balance(&create_address(1)), 99000);

    let tx_data = vec![1u8; 48];
    let block = runtime.execute_block(vec![tx_data]).unwrap();

    assert_eq!(runtime.block_number, 1);
    assert!(!block.header.state_root.0.iter().all(|&b| b == 0));
}

#[test]
fn test_state_determinism() {
    let mut runtime1 = RuntimeBuilder::new(1).with_account(create_address(1), 10000).build();

    let mut runtime2 = RuntimeBuilder::new(1).with_account(create_address(1), 10000).build();

    runtime1.transfer(&create_address(1), &create_address(2), 500).unwrap();
    runtime2.transfer(&create_address(1), &create_address(2), 500).unwrap();

    assert_eq!(runtime1.get_balance(&create_address(1)), runtime2.get_balance(&create_address(1)));
}

#[test]
fn transfer_beyond_balance_is_refused() {
    let mut runtime = RuntimeBuilder::new(1).with_account(create_address(1), 100).build();
    assert!(runtime.transfer(&create_address(1), &create_address(2), 101).is_err());
    assert_eq!(runtime.get_balance(&create_address(1)), 100);
    assert_eq!(runtime.get_balance(&create_address(2)), 0);
}

#[test]
fn identical_runtimes_produce_identical_blocks() {
    let mut a = RuntimeBuilder::new(1).with_account(create_address(1), 10000).build();
    let mut b = RuntimeBuilder::new(1).with_account(create_address(1), 10000).build();
    a.transfer(&create_address(1), &create_address(2), 5).unwrap();
    b.transfer(&create_address(1), &create_address(2), 5).unwrap();
    let ba = a.execute_block(vec![vec![1u8; 48]]).unwrap();
    let bb = b.execute_block(vec![vec![1u8; 48]]).unwrap();
    assert_eq!(ba.header.state_root.0, bb.header.state_root.0);
    assert_eq!(ba.header.hash().0, bb.header.hash().0);
}

#[test]
fn pool_remove_gives_back_transaction() {
    let mut pool = TransactionPool::new();
    let h = Hash32([7u8; 32]);
    pool.add(PoolTransaction { tx_hash: h, sender: create_address(1), nonce: 0, gas_price: 1, data: vec![] });
    assert!(pool.remove(&h).is_some());
    assert!(pool.remove(&h).is_none());
}
