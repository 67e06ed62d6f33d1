//! A full node: blocks, the transaction pool, chain storage, and the node
//! that ties the kernel to them; and the inference operator it can run.

use vstd::prelude::*;
use crate::kernel::{
    Address, Hash32, AccountData, Kernel, Transaction, ExecutionReceipt, compute_state_root, ledger,
    tx_accepted, tx_apply, account_leaves, empty_hash32,
};
use crate::digest::merkle_fold;
use crate::kernel::runtime::BlockHeader;
use crate::table::{Table, TableKey, bytes_map, copy_bytes_table};
use crate::runtime::Runtime;
use crate::vm::tvm::TVM;
use crate::node::operator::{ComputeLimits, InferenceOperator, ModelRegistry, OperatorConfig, PricingPolicy, RelayMode};

pub mod operator;

verus! {

#[derive(Clone, Copy, Debug, PartialEq, Eq, Structural)]
pub enum NodeError {
    BlockValidationFailed,
    TransactionPoolError,
    ConsensusError,
    StorageError,
}

/// A block as the node stores it.
#[derive(Debug)]
pub struct Block {
    pub header: BlockHeader,
    pub transactions: Vec<Transaction>,
    pub receipts: Vec<ExecutionReceipt>,
}

impl Block {
    /// A block of `transactions` under `header`, with no receipts yet.
    pub fn new(header: BlockHeader, transactions: Vec<Transaction>) -> (r: Self)
        ensures
            r.header == header,
            r.transactions == transactions,
            r.receipts@.len() == 0,
    {
        Block { header, transactions, receipts: Vec::new() }
    }

    /// A block must hold at least one transaction.
    pub fn validate(&self) -> (r: Result<(), NodeError>)
        ensures
            r is Ok <==> self.transactions@.len() > 0,
            r is Err ==> r == Err::<(), NodeError>(NodeError::BlockValidationFailed),
    {
        if self.transactions.len() == 0 {
            return Err(NodeError::BlockValidationFailed);
        }
        Ok(())
    }
}

/// The longest payload the kernel can charge gas for.
pub open spec fn payload_fits(tx: Transaction) -> bool {
    tx.payload@.len() <= u64::MAX - 200_000
}

/// The transactions waiting for the next block, in arrival order.
pub struct TransactionPool {
    pending: Vec<Transaction>,
}

impl View for TransactionPool {
    type V = Seq<Transaction>;

    closed spec fn view(&self) -> Seq<Transaction> {
        self.pending@
    }
}

impl TransactionPool {
    /// Every pending transaction's payload fits the kernel's gas arithmetic.
    pub open spec fn wf(&self) -> bool {
        forall|i: int| 0 <= i < self@.len() ==> payload_fits(#[trigger] self@[i])
    }

    pub fn new() -> (r: Self)
        ensures
            r@.len() == 0,
            r.wf(),
    {
        TransactionPool { pending: Vec::new() }
    }

    pub fn add_transaction(&mut self, tx: Transaction)
        requires
            old(self).wf(),
            payload_fits(tx),
        ensures
            final(self)@ == old(self)@.push(tx),
            final(self).wf(),
    {
        self.pending.push(tx);
        proof {
            assert forall|i: int| 0 <= i < self@.len() implies payload_fits(#[trigger] self@[i]) by {
                if i < old(self)@.len() {
                    assert(self@[i] == old(self)@[i]);
                }
            }
        }
    }

    pub fn get_transactions(&self) -> (r: &Vec<Transaction>)
        ensures
            r@ == self@,
    {
        &self.pending
    }

    pub fn clear(&mut self)
        ensures
            final(self)@.len() == 0,
            final(self).wf(),
    {
        self.pending.clear();
    }

    /// Leaves the pool as it is: executed transactions are dropped by
    /// `clear` when a block is produced.
    pub fn remove_executed(&mut self, _executed_count: usize)
        ensures
            final(self)@ == old(self)@,
    {
    }

    fn take_all(&mut self) -> (r: Vec<Transaction>)
        ensures
            r@ == old(self)@,
            final(self)@.len() == 0,
    {
        let mut out: Vec<Transaction> = Vec::new();
        core::mem::swap(&mut out, &mut self.pending);
        out
    }
}

impl Default for TransactionPool {
    fn default() -> (r: Self)
        ensures
            r@.len() == 0,
            r.wf(),
    {
        TransactionPool::new()
    }
}

/// What chain storage holds: blocks by height, account records by address,
/// and the greatest height stored.
pub ghost struct ChainView {
    pub blocks: Map<u64, Block>,
    pub state: Map<Seq<u8>, AccountData>,
    pub current_height: u64,
}

/// The blocks and account records a node keeps.
pub struct ChainStorage {
    blocks: Table<u64, Block>,
    state: Table<Address, AccountData>,
    current_height: u64,
}

impl View for ChainStorage {
    type V = ChainView;

    closed spec fn view(&self) -> ChainView {
        ChainView { blocks: self.blocks@, state: self.state@, current_height: self.current_height }
    }
}

/// A copy of an account record: same balance, nonce, code hash and storage
/// bytes.
pub open spec fn same_account(a: AccountData, b: AccountData) -> bool {
    a.balance == b.balance && a.nonce == b.nonce && a.code_hash == b.code_hash && bytes_map(a.storage@)
        == bytes_map(b.storage@)
}

fn copy_account(a: &AccountData) -> (r: AccountData)
    requires
        a.storage.wf(),
    ensures
        same_account(r, *a),
        r.storage.wf(),
{
    AccountData { balance: a.balance, nonce: a.nonce, storage: copy_bytes_table(&a.storage), code_hash: a.code_hash }
}

impl ChainStorage {
    pub closed spec fn wf(&self) -> bool {
        &&& self.blocks.wf()
        &&& self.state.wf()
        &&& forall|k: Seq<u8>| #[trigger] self.state@.dom().contains(k) ==> self.state@[k].storage.wf()
    }

    /// The account table, as `get_all_state` hands it out.
    pub closed spec fn state_table(&self) -> Table<Address, AccountData> {
        self.state
    }

    pub fn new() -> (r: Self)
        ensures
            r.wf(),
            r@.blocks == Map::<u64, Block>::empty(),
            r@.state == Map::<Seq<u8>, AccountData>::empty(),
            r@.current_height == 0,
    {
        ChainStorage { blocks: Table::new(), state: Table::new(), current_height: 0 }
    }

    pub fn get_block(&self, height: u64) -> (r: Option<&Block>)
        requires
            self.wf(),
        ensures
            r is Some <==> self@.blocks.dom().contains(height),
            r matches Some(b) ==> *b == self@.blocks[height],
    {
        self.blocks.get(&height)
    }

    /// Stores `block` under its number, replacing any block of that height;
    /// the current height becomes the greater of the two.
    pub fn insert_block(&mut self, block: Block)
        requires
            old(self).wf(),
        ensures
            final(self).wf(),
            final(self)@.blocks == old(self)@.blocks.insert(block.header.block_number, block),
            final(self)@.state == old(self)@.state,
            final(self)@.current_height == if block.header.block_number > old(self)@.current_height {
                block.header.block_number
            } else {
                old(self)@.current_height
            },
    {
        let height = block.header.block_number;
        self.blocks.insert(height, block);
        if height > self.current_height {
            self.current_height = height;
        }
    }

    pub fn get_state(&self, address: &Address) -> (r: Option<&AccountData>)
        requires
            self.wf(),
        ensures
            r is Some <==> self@.state.dom().contains(address.0@),
            r matches Some(a) ==> *a == self@.state[address.0@] && a.storage.wf(),
    {
        self.state.get(address)
    }

    pub fn set_state(&mut self, address: Address, account: AccountData)
        requires
            old(self).wf(),
            account.storage.wf(),
        ensures
            final(self).wf(),
            final(self)@.state == old(self)@.state.insert(address.0@, account),
            final(self)@.blocks == old(self)@.blocks,
            final(self)@.current_height == old(self)@.current_height,
    {
        self.state.insert(address, account);
    }

    pub fn get_all_state(&self) -> (r: &Table<Address, AccountData>)
        requires
            self.wf(),
        ensures
            r.wf(),
            r@ == self@.state,
            *r == self.state_table(),
    {
        &self.state
    }

    pub fn current_height(&self) -> (r: u64)
        ensures
            r == self@.current_height,
    {
        self.current_height
    }

    /// The state root of the block at height 0, if it is stored.
    pub fn get_genesis_hash(&self) -> (r: Option<Hash32>)
        requires
            self.wf(),
        ensures
            r is Some <==> self@.blocks.dom().contains(0),
            r matches Some(h) ==> h == self@.blocks[0].header.state_root,
    {
        match self.blocks.get(&0) {
            Some(b) => Some(b.header.state_root),
            None => None,
        }
    }

    fn charge_sender(&mut self, sender: &Address)
        requires
            old(self).wf(),
        ensures
            final(self).wf(),
            final(self)@ == (ChainView { state: charge_state(old(self)@.state, sender.0@), ..old(self)@ }),
    {
        match self.state.get_mut(sender) {
            Some(account) => {
                account.balance = account.balance.saturating_sub(21000);
            },
            None => {},
        }
    }
}

impl Default for ChainStorage {
    fn default() -> (r: Self)
        ensures
            r.wf(),
            r@.blocks == Map::<u64, Block>::empty(),
            r@.state == Map::<Seq<u8>, AccountData>::empty(),
            r@.current_height == 0,
    {
        ChainStorage::new()
    }
}

/// The account records after a block charges `s` for a transaction: 21 000
/// off its balance (saturating), when it has a record.
pub open spec fn charge_state(state: Map<Seq<u8>, AccountData>, s: Seq<u8>) -> Map<Seq<u8>, AccountData> {
    if state.dom().contains(s) {
        state.insert(s, AccountData { balance: state[s].balance.saturating_sub(21000), ..state[s] })
    } else {
        state
    }
}

/// The kernel's ledger after running `txs` in order, each applied when the
/// kernel accepts it and skipped otherwise.
pub open spec fn ledger_run(l: Map<Seq<u8>, (u128, u64)>, chain_id: u32, txs: Seq<Transaction>) -> Map<
    Seq<u8>,
    (u128, u64),
>
    decreases txs.len(),
{
    if txs.len() == 0 {
        l
    } else {
        let tx = txs[0];
        let l1 = if tx_accepted(l, chain_id, tx) {
            tx_apply(l, tx)
        } else {
            l
        };
        ledger_run(l1, chain_id, txs.drop_first())
    }
}

/// The node's account records after producing a block of `txs`: each
/// transaction the kernel accepts charges its sender.
pub open spec fn state_run(
    l: Map<Seq<u8>, (u128, u64)>,
    state: Map<Seq<u8>, AccountData>,
    chain_id: u32,
    txs: Seq<Transaction>,
) -> Map<Seq<u8>, AccountData>
    decreases txs.len(),
{
    if txs.len() == 0 {
        state
    } else {
        let tx = txs[0];
        if tx_accepted(l, chain_id, tx) {
            state_run(tx_apply(l, tx), charge_state(state, tx.sender@), chain_id, txs.drop_first())
        } else {
            state_run(l, state, chain_id, txs.drop_first())
        }
    }
}

/// The role a node plays.
#[derive(Clone, Copy, Debug, PartialEq, Eq, Structural)]
pub enum NodeMode {
    Client,
    Validator,
    InferenceOperator,
    Relay,
}

/// The ledger after creating, in order, an account with each balance (a
/// later entry for the same address replaces an earlier one).
pub open spec fn genesis_ledger_of(l: Map<Seq<u8>, (u128, u64)>, accounts: Seq<(Address, u128)>) -> Map<
    Seq<u8>,
    (u128, u64),
>
    decreases accounts.len(),
{
    if accounts.len() == 0 {
        l
    } else {
        genesis_ledger_of(l, accounts.drop_last()).insert(accounts.last().0.0@, (accounts.last().1, 0))
    }
}

/// `b` is the genesis block: number 0 under an all-zero parent hash, empty
/// roots, no transactions and no receipts.
pub open spec fn is_genesis_block(b: Block) -> bool {
    &&& b.header.parent_hash == empty_hash32()
    &&& b.header.block_number == 0
    &&& b.header.state_root.0@ == crate::bytes::zeros32()
    &&& b.header.receipts_root.0@ == crate::bytes::zeros32()
    &&& b.header.timestamp == 0
    &&& b.header.validator.0@ == crate::bytes::zeros32()
    &&& b.header.consensus_digest@.len() == 0
    &&& b.header.extra@.len() == 0
    &&& b.transactions@.len() == 0
    &&& b.receipts@.len() == 0
}

/// What a node holds: its kernel, pending transactions, chain storage, mode
/// and own address.
pub ghost struct NodeView {
    pub kernel: Kernel,
    pub runtime: Runtime,
    pub tvm: TVM,
    pub pool: Seq<Transaction>,
    pub chain: ChainView,
    pub mode: NodeMode,
    pub my_address: Option<Address>,
}

/// A full node.
pub struct TetcoreNode {
    kernel: Kernel,
    runtime: Runtime,
    tvm: TVM,
    tx_pool: TransactionPool,
    chain: ChainStorage,
    mode: NodeMode,
    my_address: Option<Address>,
}

impl View for TetcoreNode {
    type V = NodeView;

    closed spec fn view(&self) -> NodeView {
        NodeView {
            kernel: self.kernel,
            runtime: self.runtime,
            tvm: self.tvm,
            pool: self.tx_pool@,
            chain: self.chain@,
            mode: self.mode,
            my_address: self.my_address,
        }
    }
}

/// The kernel's ledger in a node view.
pub open spec fn kernel_ledger(v: NodeView) -> Map<Seq<u8>, (u128, u64)> {
    ledger(v.kernel.state_spec().accounts@)
}

impl TetcoreNode {
    pub closed spec fn wf(&self) -> bool {
        self.kernel.wf() && self.runtime.wf() && self.tvm.wf() && self.tx_pool.wf() && self.chain.wf()
    }

    /// The account table of the node's chain storage.
    pub closed spec fn chain_state_table(&self) -> Table<Address, AccountData> {
        self.chain.state_table()
    }

    /// A node in `mode` with an empty kernel on chain 0, an empty pool and
    /// empty storage.
    pub fn new(mode: NodeMode) -> (r: Self)
        ensures
            r.wf(),
            r@.kernel.chain_spec() == 0,
            r@.kernel.state_spec().accounts@ == Map::<Seq<u8>, AccountData>::empty(),
            r@.pool.len() == 0,
            r@.chain.blocks == Map::<u64, Block>::empty(),
            r@.chain.state == Map::<Seq<u8>, AccountData>::empty(),
            r@.chain.current_height == 0,
            r@.mode == mode,
            r@.my_address is None,
            r@.runtime@.accounts@ == Map::<Seq<u8>, crate::primitives::account::AccountData>::empty(),
            r@.runtime@.model_registry@.models.len() == 0,
            r@.tvm@.gas_schedule == crate::vm::tvm::default_vm_gas(),
            r@.tvm@.contracts.len() == 0,
    {
        TetcoreNode {
            kernel: Kernel::default(),
            runtime: Runtime::new(),
            tvm: TVM::new(),
            tx_pool: TransactionPool::new(),
            chain: ChainStorage::new(),
            mode,
            my_address: None,
        }
    }

    pub fn set_my_address(&mut self, address: Address)
        requires
            old(self).wf(),
        ensures
            final(self).wf(),
            final(self)@ == (NodeView { my_address: Some(address), ..old(self)@ }),
    {
        self.my_address = Some(address);
    }

    /// The genesis block (see `is_genesis_block`).
    pub fn create_genesis_block(&mut self) -> (r: Block)
        ensures
            is_genesis_block(r),
            *final(self) == *old(self),
    {
        let header = BlockHeader::new(Hash32::empty(), 0);
        Block::new(header, Vec::new())
    }

    /// Creates an account with each balance, in the chain storage and in the
    /// kernel, then stores the genesis block.
    pub fn initialize_genesis(&mut self, accounts: Vec<(Address, u128)>)
        requires
            old(self).wf(),
        ensures
            final(self).wf(),
            kernel_ledger(final(self)@) == genesis_ledger_of(kernel_ledger(old(self)@), accounts@),
            ledger(final(self)@.chain.state) == genesis_ledger_of(ledger(old(self)@.chain.state), accounts@),
            final(self)@.kernel.chain_spec() == old(self)@.kernel.chain_spec(),
            final(self)@.chain.blocks.dom() == old(self)@.chain.blocks.dom().insert(0),
            is_genesis_block(final(self)@.chain.blocks[0]),
            forall|h: u64| h != 0 && old(self)@.chain.blocks.dom().contains(h) ==> final(self)@.chain.blocks[h]
                == old(self)@.chain.blocks[h],
            final(self)@.chain.current_height == old(self)@.chain.current_height,
            final(self)@.pool == old(self)@.pool,
            final(self)@.mode == old(self)@.mode,
            final(self)@.my_address == old(self)@.my_address,
            final(self)@.runtime == old(self)@.runtime && final(self)@.tvm == old(self)@.tvm,
    {
        let ghost k0 = kernel_ledger(self@);
        let ghost c0 = ledger(self@.chain.state);
        let mut i: usize = 0;
        while i < accounts.len()
            invariant
                self.wf(),
                i <= accounts@.len(),
                kernel_ledger(self@) == genesis_ledger_of(k0, accounts@.take(i as int)),
                ledger(self@.chain.state) == genesis_ledger_of(c0, accounts@.take(i as int)),
                self@.kernel.chain_spec() == old(self)@.kernel.chain_spec(),
                self@.chain.blocks == old(self)@.chain.blocks,
                self@.chain.current_height == old(self)@.chain.current_height,
                self@.pool == old(self)@.pool,
                self@.mode == old(self)@.mode,
                self@.my_address == old(self)@.my_address,
                self@.runtime == old(self)@.runtime && self@.tvm == old(self)@.tvm,
            decreases accounts@.len() - i,
        {
            let (address, balance) = accounts[i];
            let ghost kb = self.kernel.state_spec().accounts@;
            let ghost cb = self.chain@.state;
            self.chain.set_state(address, AccountData::new(balance));
            self.kernel.create_account(address, balance);
            proof {
                assert(accounts@.take(i + 1).drop_last() =~= accounts@.take(i as int));
                assert(accounts@.take(i + 1).last() == accounts@[i as int]);
                let ka = self.kernel.state_spec().accounts@;
                assert(ledger(ka) =~= ledger(kb).insert(address.0@, (balance, 0u64)));
                assert(ledger(self.chain@.state) =~= ledger(cb).insert(address.0@, (balance, 0u64)));
            }
            i = i + 1;
        }
        assert(accounts@.take(i as int) =~= accounts@);
        let genesis = self.create_genesis_block();
        self.chain.insert_block(genesis);
    }

    /// Queues `tx` when the kernel accepts it.
    pub fn submit_transaction(&mut self, tx: Transaction) -> (r: Result<(), NodeError>)
        requires
            old(self).wf(),
            payload_fits(tx),
        ensures
            final(self).wf(),
            r is Ok <==> tx_accepted(kernel_ledger(old(self)@), old(self)@.kernel.chain_spec(), tx),
            r is Err ==> r == Err::<(), NodeError>(NodeError::TransactionPoolError) && *final(self) == *old(self),
            r is Ok ==> final(self)@ == (NodeView { pool: old(self)@.pool.push(tx), ..old(self)@ }),
    {
        match self.kernel.validate_transaction(&tx) {
            Err(_) => {
                return Err(NodeError::TransactionPoolError);
            },
            Ok(_) => {},
        }
        self.tx_pool.add_transaction(tx);
        Ok(())
    }

    /// Runs the pending transactions through the kernel (those it accepts
    /// charge their sender's record 21 000), empties the pool and returns
    /// the block on top of the current height, whose state root is that of
    /// the node's account records. A block without transactions is refused,
    /// after the pool has been emptied.
    pub fn produce_block(&mut self) -> (r: Result<Block, NodeError>)
        requires
            old(self).wf(),
            old(self)@.chain.current_height < u64::MAX,
        ensures
            final(self).wf(),
            kernel_ledger(final(self)@) == ledger_run(
                kernel_ledger(old(self)@),
                old(self)@.kernel.chain_spec(),
                old(self)@.pool,
            ),
            final(self)@.chain.state == state_run(
                kernel_ledger(old(self)@),
                old(self)@.chain.state,
                old(self)@.kernel.chain_spec(),
                old(self)@.pool,
            ),
            final(self)@.kernel.chain_spec() == old(self)@.kernel.chain_spec(),
            final(self)@.pool.len() == 0,
            final(self)@.chain.blocks == old(self)@.chain.blocks,
            final(self)@.chain.current_height == old(self)@.chain.current_height,
            final(self)@.mode == old(self)@.mode,
            final(self)@.my_address == old(self)@.my_address,
            final(self)@.runtime == old(self)@.runtime && final(self)@.tvm == old(self)@.tvm,
            r is Err <==> old(self)@.pool.len() == 0,
            r is Err ==> r == Err::<Block, NodeError>(NodeError::BlockValidationFailed),
            r matches Ok(b) ==> {
                let h = old(self)@.chain.current_height;
                &&& b.transactions@ == old(self)@.pool
                &&& b.receipts@.len() == 0
                &&& b.header.block_number == h + 1
                &&& b.header.parent_hash == if old(self)@.chain.blocks.dom().contains(h) {
                    old(self)@.chain.blocks[h].header.state_root
                } else {
                    empty_hash32()
                }
                &&& b.header.state_root.0@ == merkle_fold(account_leaves(ledger(final(self)@.chain.state)))
                &&& b.header.receipts_root.0@ == crate::bytes::zeros32()
                &&& b.header.timestamp == 0
            },
    {
        let parent_height = self.chain.current_height();
        let parent_hash = match self.chain.get_block(parent_height) {
            Some(b) => b.header.state_root,
            None => Hash32::empty(),
        };
        let mut header = BlockHeader::new(parent_hash, parent_height + 1);
        let transactions = self.tx_pool.take_all();
        let ghost chain_id = self.kernel.chain_spec();
        let ghost l0 = kernel_ledger(old(self)@);
        let ghost s0 = old(self)@.chain.state;
        let ghost target_l = ledger_run(l0, chain_id, transactions@);
        let ghost target_s = state_run(l0, s0, chain_id, transactions@);
        assert(transactions@.skip(0) =~= transactions@);
        let mut i: usize = 0;
        while i < transactions.len()
            invariant
                self.wf(),
                i <= transactions@.len(),
                transactions@ == old(self)@.pool,
                forall|j: int| 0 <= j < transactions@.len() ==> payload_fits(#[trigger] transactions@[j]),
                self.kernel.chain_spec() == chain_id,
                ledger_run(kernel_ledger(self@), chain_id, transactions@.skip(i as int)) == target_l,
                state_run(kernel_ledger(self@), self@.chain.state, chain_id, transactions@.skip(i as int)) == target_s,
                self@.pool.len() == 0,
                self@.chain.blocks == old(self)@.chain.blocks,
                self@.chain.current_height == old(self)@.chain.current_height,
                self@.mode == old(self)@.mode,
                self@.my_address == old(self)@.my_address,
                self@.runtime == old(self)@.runtime && self@.tvm == old(self)@.tvm,
            decreases transactions@.len() - i,
        {
            let tx = &transactions[i];
            let ghost l = kernel_ledger(self@);
            let ghost st = self@.chain.state;
            proof {
                assert(transactions@.skip(i as int)[0] == transactions@[i as int]);
                assert(transactions@.skip(i as int).drop_first() =~= transactions@.skip(i + 1));
            }
            match self.kernel.execute_transaction(tx) {
                Ok(_) => {
                    let sender = tx.sender_address();
                    self.chain.charge_sender(&sender);
                },
                Err(_) => {},
            }
            i = i + 1;
        }
        assert(transactions@.skip(i as int) =~= Seq::<Transaction>::empty());
        header.state_root = compute_state_root(self.chain.get_all_state());
        self.tx_pool.clear();
        let block = Block::new(header, transactions);
        match block.validate() {
            Err(_) => Err(NodeError::BlockValidationFailed),
            Ok(_) => Ok(block),
        }
    }

    /// Runs the block's transactions through the kernel (failures are
    /// skipped) and stores the block. A block without transactions is
    /// refused and changes nothing.
    pub fn import_block(&mut self, block: Block) -> (r: Result<(), NodeError>)
        requires
            old(self).wf(),
            forall|j: int| 0 <= j < block.transactions@.len() ==> payload_fits(#[trigger] block.transactions@[j]),
        ensures
            final(self).wf(),
            r is Err <==> block.transactions@.len() == 0,
            r is Err ==> r == Err::<(), NodeError>(NodeError::BlockValidationFailed) && *final(self) == *old(self),
            r is Ok ==> {
                &&& kernel_ledger(final(self)@) == ledger_run(
                    kernel_ledger(old(self)@),
                    old(self)@.kernel.chain_spec(),
                    block.transactions@,
                )
                &&& final(self)@.kernel.chain_spec() == old(self)@.kernel.chain_spec()
                &&& final(self)@.chain.blocks == old(self)@.chain.blocks.insert(block.header.block_number, block)
                &&& final(self)@.chain.state == old(self)@.chain.state
                &&& final(self)@.chain.current_height == if block.header.block_number > old(self)@.chain.current_height {
                    block.header.block_number
                } else {
                    old(self)@.chain.current_height
                }
                &&& final(self)@.pool == old(self)@.pool
                &&& final(self)@.mode == old(self)@.mode
                &&& final(self)@.my_address == old(self)@.my_address
                &&& final(self)@.runtime == old(self)@.runtime && final(self)@.tvm == old(self)@.tvm
            },
    {
        match block.validate() {
            Err(_) => {
                return Err(NodeError::BlockValidationFailed);
            },
            Ok(_) => {},
        }
        let ghost chain_id = self.kernel.chain_spec();
        let ghost target = ledger_run(kernel_ledger(old(self)@), chain_id, block.transactions@);
        assert(block.transactions@.skip(0) =~= block.transactions@);
        let mut i: usize = 0;
        while i < block.transactions.len()
            invariant
                self.wf(),
                i <= block.transactions@.len(),
                forall|j: int| 0 <= j < block.transactions@.len() ==> payload_fits(#[trigger] block.transactions@[j]),
                self.kernel.chain_spec() == chain_id,
                ledger_run(kernel_ledger(self@), chain_id, block.transactions@.skip(i as int)) == target,
                self@.chain == old(self)@.chain,
                self@.pool == old(self)@.pool,
                self@.mode == old(self)@.mode,
                self@.my_address == old(self)@.my_address,
                self@.runtime == old(self)@.runtime && self@.tvm == old(self)@.tvm,
            decreases block.transactions@.len() - i,
        {
            proof {
                assert(block.transactions@.skip(i as int)[0] == block.transactions@[i as int]);
                assert(block.transactions@.skip(i as int).drop_first() =~= block.transactions@.skip(i + 1));
            }
            let _ = self.kernel.execute_transaction(&block.transactions[i]);
            i = i + 1;
        }
        assert(block.transactions@.skip(i as int) =~= Seq::<Transaction>::empty());
        self.chain.insert_block(block);
        Ok(())
    }

    /// A copy of the account record stored for `address`, if any.
    pub fn get_account(&self, address: &Address) -> (r: Option<AccountData>)
        requires
            self.wf(),
        ensures
            r is Some <==> self@.chain.state.dom().contains(address.0@),
            r matches Some(a) ==> same_account(a, self@.chain.state[address.0@]),
    {
        match self.chain.get_state(address) {
            Some(a) => {
                Some(copy_account(a))
            },
            None => None,
        }
    }

    pub fn mode(&self) -> (r: &NodeMode)
        ensures
            *r == self@.mode,
    {
        &self.mode
    }

    pub fn chain(&self) -> (r: &ChainStorage)
        requires
            self.wf(),
        ensures
            r@ == self@.chain,
            r.wf(),
    {
        &self.chain
    }

    pub fn chain_mut(&mut self) -> (r: &mut ChainStorage)
        requires
            old(self).wf(),
        ensures
            r@ == old(self)@.chain,
            r.wf(),
            final(self)@ == (NodeView { chain: final(r)@, ..old(self)@ }),
            final(r).wf() ==> final(self).wf(),
    {
        &mut self.chain
    }

    /// Whether the node runs as an inference operator.
    pub fn is_operator_mode(&self) -> (r: bool)
        ensures
            r == (self@.mode == NodeMode::InferenceOperator),
    {
        match self.mode {
            NodeMode::InferenceOperator => true,
            _ => false,
        }
    }
    pub fn get_runtime(&self) -> (r: &Runtime)
        ensures
            *r == self@.runtime,
    {
        &self.runtime
    }

    pub fn get_runtime_mut(&mut self) -> (r: &mut Runtime)
        ensures
            *r == old(self)@.runtime,
            final(self)@ == (NodeView { runtime: *final(r), ..old(self)@ }),
    {
        &mut self.runtime
    }

    pub fn get_tvm(&self) -> (r: &TVM)
        ensures
            *r == self@.tvm,
    {
        &self.tvm
    }

    pub fn get_tvm_mut(&mut self) -> (r: &mut TVM)
        ensures
            *r == old(self)@.tvm,
            final(self)@ == (NodeView { tvm: *final(r), ..old(self)@ }),
    {
        &mut self.tvm
    }

    /// An inference operator for this node: it acts for the node's address
    /// (the zero address when none is set), serves no model yet, runs up
    /// to 4 executions at once, and knows the states of the runtime's
    /// registered models.
    pub fn create_operator(&self) -> (r: InferenceOperator)
        requires
            self.wf(),
        ensures
            r.wf(),
            match self@.my_address {
                Some(a) => r.config.operator_address == a,
                None => r.config.operator_address.0@ == crate::bytes::zeros32(),
            },
            r.config.supported_models@.len() == 0,
            r.config.max_concurrent_executions == 4,
            r.config.relay_mode == RelayMode::RelayTransport,
            r.config.pricing_policy == PricingPolicy::MarketBased,
            r.config.compute_limits == (ComputeLimits {
                max_input_tokens: 4096,
                max_output_tokens: 2048,
                max_compute_units: 1000000,
                max_execution_time_ms: 30000,
            }),
            r.model_registry.states@ == self@.runtime@.model_registry@.models.map_values(
                |m: crate::runtime::model_registry::Model| m.state,
            ),
            r.active_executions@.len() == 0,
            r.execution_history@.len() == 0,
    {
        let operator_address = match self.my_address {
            Some(a) => a,
            None => Address(crate::bytes::zero32()),
        };
        let config = OperatorConfig {
            operator_address,
            supported_models: Vec::new(),
            max_concurrent_executions: 4,
            relay_mode: RelayMode::RelayTransport,
            pricing_policy: PricingPolicy::MarketBased,
            compute_limits: ComputeLimits::default(),
        };
        let model_registry = ModelRegistry::from_models(self.runtime.model_registry().all_models());
        InferenceOperator::new(config, model_registry)
    }

    /// The configuration of the node's operator (see `create_operator`),
    /// when the node runs as one.
    pub fn get_operator_config(&self) -> (r: Option<OperatorConfig>)
        requires
            self.wf(),
        ensures
            r is Some <==> self@.mode == NodeMode::InferenceOperator,
            r matches Some(c) ==> (match self@.my_address {
                Some(a) => c.operator_address == a,
                None => c.operator_address.0@ == crate::bytes::zeros32(),
            }) && c.supported_models@.len() == 0 && c.max_concurrent_executions == 4 && c.relay_mode
                == RelayMode::RelayTransport && c.pricing_policy == PricingPolicy::MarketBased,
    {
        if self.is_operator_mode() {
            let operator = self.create_operator();
            Some(operator.config)
        } else {
            None
        }
    }
}

} // verus!

verus! {

/// Importing a block replays its production: a node that imports the block
/// another node produced, starting from the same ledger on the same chain,
/// ends with the same kernel ledger as the producer.
pub proof fn lemma_import_replays_production(
    producer_before: NodeView,
    producer_after: NodeView,
    importer_before: NodeView,
    importer_after: NodeView,
    block: Block,
)
    requires
        kernel_ledger(producer_before) == kernel_ledger(importer_before),
        producer_before.kernel.chain_spec() == importer_before.kernel.chain_spec(),
        kernel_ledger(producer_after) == ledger_run(
            kernel_ledger(producer_before),
            producer_before.kernel.chain_spec(),
            producer_before.pool,
        ),
        block.transactions@ == producer_before.pool,
        kernel_ledger(importer_after) == ledger_run(
            kernel_ledger(importer_before),
            importer_before.kernel.chain_spec(),
            block.transactions@,
        ),
    ensures
        kernel_ledger(producer_after) == kernel_ledger(importer_after),
{
}

} // verus!
