use sha2::{Digest, Sha256};
use tetcore::kernel::{Address, Kernel, Transaction};

#[test]
fn applied_transaction_cannot_be_replayed() {
    let mut kernel = Kernel::new(0);
    kernel.create_account(Address([1u8; 32]), 1_000_000);
    let tx = Transaction::new([1u8; 32]);
    assert!(kernel.execute_transaction(&tx).is_ok());
    assert_eq!(kernel.get_nonce(&Address([1u8; 32])), 1);
    assert!(kernel.execute_transaction(&tx).is_err());
    assert_eq!(kernel.get_balance(&Address([1u8; 32])), 1_000_000 - 21000);
}

#[test]
fn transaction_for_another_chain_is_refused() {
    let mut kernel = Kernel::new(7);
    kernel.create_account(Address([1u8; 32]), 1_000_000);
    let tx = Transaction::new([1u8; 32]);
    assert!(kernel.validate_transaction(&tx).is_err());
}

#[test]
fn address_hashes_domain_tag_and_key() {
    let pk = [7u8; 32];
    let mut data = b"TETCORE:ADDR:v1".to_vec();
    data.extend_from_slice(&pk);
    let expected: [u8; 32] = Sha256::digest(&data).into();
    assert_eq!(Address::from_public_key(&pk).0, expected);
    let bare: [u8; 32] = Sha256::digest(pk).into();
    assert_ne!(Address::from_public_key(&pk).0, bare);
    assert_eq!(Address::from_public_key(&pk), Address::from_public_key(&pk));
}

#[test]
fn block_stops_at_a_transaction_over_the_gas_limit() {
    let mut kernel = Kernel::new(0);
    kernel.create_account(Address([1u8; 32]), 1_000_000);
    let first = Transaction::new([1u8; 32]);
    let mut huge = Transaction::new([1u8; 32]);
    huge.nonce = 1;
    huge.gas_limit = u64::MAX;
    let receipt = kernel.apply_block(&[first, huge]).unwrap();
    assert_eq!(receipt.transaction_count, 1);
    assert_eq!(receipt.gas_used, 42000);
    assert_eq!(kernel.get_nonce(&Address([1u8; 32])), 1);

    let mut other = Kernel::new(0);
    let mut alone = Transaction::new([1u8; 32]);
    alone.gas_limit = u64::MAX;
    let empty = other.apply_block(&[alone]).unwrap();
    assert_eq!(empty.transaction_count, 0);
    assert_eq!(empty.gas_used, 0);
}
