use tetcore::kernel::runtime::BlockHeader;
use tetcore::kernel::{Address, Hash32, Transaction};
use tetcore::node::{Block, ChainStorage, NodeError, NodeMode, TetcoreNode, TransactionPool};

fn addr(i: u8) -> Address {
    let mut b = [0u8; 32];
    b[31] = i;
    Address(b)
}

#[test]
fn empty_block_is_invalid() {
    let block = Block::new(BlockHeader::new(Hash32::empty(), 1), Vec::new());
    assert!(matches!(block.validate(), Err(NodeError::BlockValidationFailed)));
    let block = Block::new(BlockHeader::new(Hash32::empty(), 1), vec![Transaction::new([1u8; 32])]);
    assert!(block.validate().is_ok());
}

#[test]
fn pool_keeps_arrival_order() {
    let mut pool = TransactionPool::new();
    pool.add_transaction(Transaction::new([1u8; 32]));
    pool.add_transaction(Transaction::new([2u8; 32]));
    assert_eq!(pool.get_transactions().len(), 2);
    assert_eq!(pool.get_transactions()[1].sender, [2u8; 32]);
    pool.clear();
    assert_eq!(pool.get_transactions().len(), 0);
}

#[test]
fn chain_storage_tracks_height() {
    let mut chain = ChainStorage::new();
    chain.insert_block(Block::new(BlockHeader::new(Hash32::empty(), 3), Vec::new()));
    assert_eq!(chain.current_height(), 3);
    chain.insert_block(Block::new(BlockHeader::new(Hash32::empty(), 1), Vec::new()));
    assert_eq!(chain.current_height(), 3);
    assert!(chain.get_block(1).is_some());
    assert!(chain.get_genesis_hash().is_none());
}

#[test]
fn genesis_creates_accounts_and_block() {
    let mut node = TetcoreNode::new(NodeMode::Validator);
    node.initialize_genesis(vec![(addr(1), 1000), (addr(2), 500)]);
    assert_eq!(node.get_account(&addr(1)).unwrap().balance, 1000);
    assert!(node.get_account(&addr(3)).is_none());
    assert_eq!(node.chain().get_genesis_hash().unwrap().0, [0u8; 32]);
    assert!(!node.is_operator_mode());
    assert!(node.get_operator_config().is_none());
}

#[test]
fn produce_block_charges_accepted_transactions() {
    let mut node = TetcoreNode::new(NodeMode::Validator);
    node.initialize_genesis(vec![(addr(1), 1_000_000)]);
    let mut tx = Transaction::new(addr(1).0);
    tx.gas_limit = 21000;
    tx.gas_price = 1;
    node.submit_transaction(tx).unwrap();
    let block = node.produce_block().unwrap();
    assert_eq!(block.header.block_number, 1);
    assert_eq!(block.transactions.len(), 1);
    assert_eq!(node.get_account(&addr(1)).unwrap().balance, 1_000_000 - 21000);
    assert!(matches!(node.produce_block(), Err(NodeError::BlockValidationFailed)));
}

#[test]
fn unknown_sender_is_refused() {
    let mut node = TetcoreNode::new(NodeMode::Client);
    assert!(matches!(node.submit_transaction(Transaction::new([5u8; 32])), Err(NodeError::TransactionPoolError)));
}

#[test]
fn operator_node_has_operator_config() {
    let mut node = TetcoreNode::new(NodeMode::InferenceOperator);
    node.set_my_address(addr(7));
    let config = node.get_operator_config().unwrap();
    assert_eq!(config.operator_address, addr(7));
    assert_eq!(config.max_concurrent_executions, 4);
}
