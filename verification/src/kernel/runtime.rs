//! The Tetcore runtime: blocks and their headers, the transaction pool, the
//! account ledger, and block execution over the kernel's modules.

use vstd::prelude::*;
use crate::arith::sat_mul128;
use crate::bytes::{push_all, push_le, le_bytes, le_value, read_u64_le, zeros32, zero32};
use crate::digest::{sha256, sha256_spec, merkle_fold, merkle_root, arr_views};
use crate::kernel::{Address, Hash32, bytes32_from_slice, slice_to_32, empty_hash32};
use crate::kernel::consensus::{ConsensusEngine, ValidatorInfo};
use crate::kernel::economics::{
    FeeModule, StakingModule, Treasury, gas_price_spec, ratios_computable, rewards_distributed,
    stake_computable, shares_for, StakerInfo, StakingError, ValidatorStake, staker_entry, TokenSupply,
    InflationConfig,
};
use crate::kernel::governance::{GovernanceModule, GovernanceView};
use crate::kernel::ifp::InferenceModule;
use crate::kernel::sdk::{GenesisState, GenesisAccount};
use crate::kernel::tvm::ContractModule;
use crate::table::{Table, TableKey, OrderedKey, sorted_order, views};

verus! {

pub const SYSTEM_MODULE_ID: [u8; 4] = [0x53, 0x59, 0x53, 0x54];

pub const ACCOUNTS_MODULE_ID: [u8; 4] = [0x41, 0x43, 0x43, 0x54];

pub const CONSENSUS_MODULE_ID: [u8; 4] = [0x43, 0x4f, 0x4e, 0x53];

pub const ECONOMICS_MODULE_ID: [u8; 4] = [0x45, 0x43, 0x4f, 0x4e];

pub const GOVERNANCE_MODULE_ID: [u8; 4] = [0x47, 0x4f, 0x56, 0x45];

pub const IFP_MODULE_ID: [u8; 4] = [0x49, 0x46, 0x50, 0x31];

pub const TVM_MODULE_ID: [u8; 4] = [0x54, 0x56, 0x4d, 0x31];

/// The header of a block.
#[derive(Clone, Debug)]
pub struct BlockHeader {
    pub parent_hash: Hash32,
    pub state_root: Hash32,
    pub receipts_root: Hash32,
    pub block_number: u64,
    pub timestamp: u64,
    pub validator: Address,
    pub consensus_digest: Vec<u8>,
    pub extra: Vec<u8>,
}

/// The hash of a header: the digest of the parent hash, the state root, the
/// block number and timestamp (8 little-endian bytes each) and the
/// validator.
pub open spec fn header_hash_spec(h: BlockHeader) -> Seq<u8> {
    sha256_spec(
        h.parent_hash.0@ + h.state_root.0@ + le_bytes(h.block_number as nat, 8) + le_bytes(h.timestamp as nat, 8)
            + h.validator.0@,
    )
}

impl BlockHeader {
    /// A header with empty roots, zero timestamp, the zero validator and no
    /// digest or extra data.
    pub fn new(parent_hash: Hash32, block_number: u64) -> (r: Self)
        ensures
            r.parent_hash == parent_hash && r.block_number == block_number,
            r.state_root.0@ == zeros32() && r.receipts_root.0@ == zeros32(),
            r.timestamp == 0 && r.validator.0@ == zeros32(),
            r.consensus_digest@.len() == 0 && r.extra@.len() == 0,
    {
        BlockHeader {
            parent_hash,
            state_root: Hash32::empty(),
            receipts_root: Hash32::empty(),
            block_number,
            timestamp: 0,
            validator: Address(zero32()),
            consensus_digest: Vec::new(),
            extra: Vec::new(),
        }
    }

    pub fn hash(&self) -> (r: Hash32)
        ensures
            r.0@ == header_hash_spec(*self),
    {
        let mut data: Vec<u8> = Vec::new();
        push_all(&mut data, self.parent_hash.0.as_slice());
        push_all(&mut data, self.state_root.0.as_slice());
        push_le(&mut data, self.block_number as u128, 8);
        push_le(&mut data, self.timestamp as u128, 8);
        push_all(&mut data, self.validator.0.as_slice());
        proof {
            assert(data@ =~= self.parent_hash.0@ + self.state_root.0@ + le_bytes(self.block_number as nat, 8)
                + le_bytes(self.timestamp as nat, 8) + self.validator.0@);
        }
        Hash32(sha256(data.as_slice()))
    }
}

/// A block with its header, transactions and receipts.
#[derive(Clone, Debug)]
pub struct SealedBlock {
    pub header: BlockHeader,
    pub transactions: Vec<Vec<u8>>,
    pub receipts: Vec<Vec<u8>>,
}

impl SealedBlock {
    pub fn new(header: BlockHeader, transactions: Vec<Vec<u8>>, receipts: Vec<Vec<u8>>) -> (r: Self)
        ensures
            r.header == header && r.transactions == transactions && r.receipts == receipts,
    {
        SealedBlock { header, transactions, receipts }
    }
}

/// A transaction waiting in the pool.
#[derive(Clone, Debug)]
pub struct PoolTransaction {
    pub tx_hash: Hash32,
    pub sender: Address,
    pub nonce: u64,
    pub gas_price: u128,
    pub data: Vec<u8>,
}

/// Pending and ready transactions.
#[derive(Clone, Debug)]
pub struct TransactionPool {
    pub pending: Vec<PoolTransaction>,
    pub ready: Vec<PoolTransaction>,
}

/// The position of the first transaction with hash `h`, if any.
pub open spec fn first_with_hash(s: Seq<PoolTransaction>, h: Seq<u8>) -> Option<int> {
    if exists|i: int| 0 <= i < s.len() && s[i].tx_hash.0@ == h {
        Some(choose|i: int| 0 <= i < s.len() && s[i].tx_hash.0@ == h && forall|j: int| 0 <= j < i ==> s[j].tx_hash.0@ != h)
    } else {
        None
    }
}

/// The transactions of `s` that survive a nonce update: all but those of
/// `sender` below `nonce`, in order.
pub open spec fn surviving(s: Seq<PoolTransaction>, sender: Seq<u8>, nonce: u64) -> Seq<PoolTransaction>
    decreases s.len(),
{
    if s.len() == 0 {
        s
    } else {
        let rest = surviving(s.drop_last(), sender, nonce);
        if s.last().sender.0@ == sender && s.last().nonce < nonce {
            rest
        } else {
            rest.push(s.last())
        }
    }
}

/// Finds the first transaction with hash `h`.
fn find_tx(s: &Vec<PoolTransaction>, h: &Hash32) -> (r: Option<usize>)
    ensures
        r matches Some(i) ==> i < s@.len(),
        match r {
            Some(i) => first_with_hash(s@, h.0@) == Some(i as int),
            None => first_with_hash(s@, h.0@) is None,
        },
{
    let mut i: usize = 0;
    while i < s.len()
        invariant
            i <= s@.len(),
            forall|j: int| 0 <= j < i ==> s@[j].tx_hash.0@ != h.0@,
        decreases s@.len() - i,
    {
        if s[i].tx_hash == *h {
            let ghost w = choose|k: int| 0 <= k < s@.len() && s@[k].tx_hash.0@ == h.0@ && forall|j: int|
                0 <= j < k ==> s@[j].tx_hash.0@ != h.0@;
            proof {
                assert(0 <= i < s@.len() && s@[i as int].tx_hash.0@ == h.0@ && forall|j: int|
                    0 <= j < i ==> s@[j].tx_hash.0@ != h.0@);
                if w < i {
                    assert(s@[w].tx_hash.0@ != h.0@);
                } else if w > i {
                    assert(s@[i as int].tx_hash.0@ != h.0@);
                }
            }
            return Some(i);
        }
        i = i + 1;
    }
    None
}

/// Keeps the transactions that survive a nonce update.
fn retain_surviving(s: Vec<PoolTransaction>, sender: &Address, nonce: u64) -> (r: Vec<PoolTransaction>)
    ensures
        r@ == surviving(s@, sender.0@, nonce),
{
    let mut out: Vec<PoolTransaction> = Vec::new();
    let mut rest = s;
    let ghost src = rest@;
    let mut items: Vec<PoolTransaction> = Vec::new();
    while rest.len() > 0
        invariant
            rest@ + items@.reverse() == src,
        decreases rest@.len(),
    {
        let t = rest.pop().unwrap();
        let ghost before = items@;
        items.push(t);
        proof {
            assert(items@.reverse() =~= seq![t] + before.reverse());
            assert(rest@ + items@.reverse() =~= rest@.push(t) + before.reverse());
        }
    }
    assert(items@.reverse() =~= src);
    assert(src.take(0) =~= Seq::<PoolTransaction>::empty());
    let mut k: usize = 0;
    let m = items.len();
    while items.len() > 0
        invariant
            m == src.len(),
            items@.len() + k == m,
            items@.reverse() == src.subrange(k as int, m as int),
            out@ == surviving(src.take(k as int), sender.0@, nonce),
        decreases items@.len(),
    {
        let ghost old_items = items@;
        let t = items.pop().unwrap();
        proof {
            assert(old_items =~= items@.push(t));
            assert(old_items.reverse() =~= seq![t] + items@.reverse());
            assert(src.subrange(k as int, m as int) =~= seq![t] + items@.reverse());
            assert(src.subrange(k as int, m as int)[0] == src[k as int]);
            assert(src[k as int] == t);
            let whole = src.subrange(k as int, m as int);
            assert forall|j: int| 0 <= j < items@.reverse().len() implies items@.reverse()[j] == src.subrange(
                k + 1,
                m as int,
            )[j] by {
                assert((seq![t] + items@.reverse())[j + 1] == items@.reverse()[j]);
                assert(whole[j + 1] == src[k + 1 + j]);
            }
            assert(items@.reverse() =~= src.subrange(k + 1, m as int));
            assert(src.take(k + 1).drop_last() =~= src.take(k as int));
            assert(src.take(k + 1).last() == t);
        }
        if !(t.sender == *sender && t.nonce < nonce) {
            out.push(t);
        }
        k = k + 1;
    }
    assert(src.take(m as int) =~= src);
    out
}

impl TransactionPool {
    pub fn new() -> (r: Self)
        ensures
            r.pending@.len() == 0 && r.ready@.len() == 0,
    {
        TransactionPool { pending: Vec::new(), ready: Vec::new() }
    }

    pub fn add(&mut self, tx: PoolTransaction)
        ensures
            final(self).pending@ == old(self).pending@.push(tx),
            final(self).ready == old(self).ready,
    {
        self.pending.push(tx);
    }

    /// Removes the first transaction with hash `tx_hash`, looking among the
    /// pending ones first and then among the ready ones.
    pub fn remove(&mut self, tx_hash: &Hash32) -> (r: Option<PoolTransaction>)
        ensures
            match first_with_hash(old(self).pending@, tx_hash.0@) {
                Some(i) => r == Some(old(self).pending@[i]) && final(self).pending@ == old(self).pending@.remove(i)
                    && final(self).ready == old(self).ready,
                None => match first_with_hash(old(self).ready@, tx_hash.0@) {
                    Some(i) => r == Some(old(self).ready@[i]) && final(self).ready@ == old(self).ready@.remove(i)
                        && final(self).pending == old(self).pending,
                    None => r is None && final(self).pending == old(self).pending && final(self).ready
                        == old(self).ready,
                },
            },
    {
        match find_tx(&self.pending, tx_hash) {
            Some(pos) => Some(self.pending.remove(pos)),
            None => match find_tx(&self.ready, tx_hash) {
                Some(pos) => Some(self.ready.remove(pos)),
                None => None,
            },
        }
    }

    /// Drops the transactions of `sender` with a nonce below `nonce`.
    pub fn update_nonce(&mut self, sender: &Address, nonce: u64)
        ensures
            final(self).pending@ == surviving(old(self).pending@, sender.0@, nonce),
            final(self).ready@ == surviving(old(self).ready@, sender.0@, nonce),
    {
        let mut pending: Vec<PoolTransaction> = Vec::new();
        std::mem::swap(&mut pending, &mut self.pending);
        self.pending = retain_surviving(pending, sender, nonce);
        let mut ready: Vec<PoolTransaction> = Vec::new();
        std::mem::swap(&mut ready, &mut self.ready);
        self.ready = retain_surviving(ready, sender, nonce);
    }
}

impl Default for TransactionPool {
    fn default() -> (r: Self)
        ensures
            r.pending@.len() == 0 && r.ready@.len() == 0,
    {
        TransactionPool::new()
    }
}

/// An account of the runtime's ledger.
#[derive(Clone, Copy, Debug)]
pub struct AccountState {
    pub balance: u128,
    pub nonce: u64,
    pub code_hash: Option<Hash32>,
    pub storage_root: Hash32,
}

impl AccountState {
    pub fn new(balance: u128) -> (r: Self)
        ensures
            r == fresh_account(balance),
            r.storage_root.0@ == zeros32(),
    {
        AccountState { balance, nonce: 0, code_hash: None, storage_root: Hash32::empty() }
    }
}

/// A new account holding `balance`.
pub open spec fn fresh_account(balance: u128) -> AccountState {
    AccountState { balance, nonce: 0, code_hash: None, storage_root: empty_hash32() }
}

/// Why the runtime refused an operation.
#[derive(Clone, Copy, Debug, PartialEq, Eq, Structural)]
pub enum RuntimeError {
    AccountNotFound,
    InsufficientBalance,
    InvalidNonce,
    InvalidTransaction,
    ContractNotFound,
    ConsensusError,
    GovernanceError,
    StorageError,
}

/// The sender of a raw transaction: its first 32 bytes.
pub open spec fn raw_sender(tx: Seq<u8>) -> Seq<u8> {
    tx.subrange(0, 32)
}

/// The nonce of a raw transaction: bytes 32 to 40, little-endian.
pub open spec fn raw_nonce(tx: Seq<u8>) -> nat {
    le_value(tx.subrange(32, 40))
}

/// The gas limit of a raw transaction: bytes 40 to 48, little-endian.
pub open spec fn raw_gas_limit(tx: Seq<u8>) -> nat {
    le_value(tx.subrange(40, 48))
}

/// Whether executing a raw transaction stays within machine arithmetic:
/// its fee fits in 128 bits and its nonce can be incremented.
pub open spec fn raw_tx_computable(tx: Seq<u8>, fee: FeeModule) -> bool {
    tx.len() >= 48 ==> raw_gas_limit(tx) * gas_price_spec(fee) <= u128::MAX && raw_nonce(tx) < u64::MAX
}

/// Executes a raw transaction on the ledger: one of at least 48 bytes whose
/// sender exists with the given nonce and can pay the fee (gas limit times
/// gas price) pays it and increments its nonce; the fee, if any, comes back.
pub open spec fn raw_tx_spec(m: Map<Seq<u8>, AccountState>, fee: FeeModule, tx: Seq<u8>) -> (
    Map<Seq<u8>, AccountState>,
    Option<u128>,
) {
    if tx.len() < 48 || !m.dom().contains(raw_sender(tx)) {
        (m, None)
    } else {
        let a = m[raw_sender(tx)];
        let f = (raw_gas_limit(tx) * gas_price_spec(fee)) as u128;
        if a.nonce != raw_nonce(tx) || a.balance < f {
            (m, None)
        } else {
            (
                m.insert(raw_sender(tx), AccountState { balance: (a.balance - f) as u128, nonce: (a.nonce + 1) as u64, ..a }),
                Some(f),
            )
        }
    }
}

/// Executes raw transactions in order; the fees are summed with saturation.
pub open spec fn raw_block_spec(m: Map<Seq<u8>, AccountState>, fee: FeeModule, txs: Seq<Seq<u8>>) -> (
    Map<Seq<u8>, AccountState>,
    u128,
)
    decreases txs.len(),
{
    if txs.len() == 0 {
        (m, 0)
    } else {
        let (m1, t1) = raw_block_spec(m, fee, txs.drop_last());
        let (m2, f) = raw_tx_spec(m1, fee, txs.last());
        (
            m2,
            match f {
                Some(x) => t1.saturating_add(x),
                None => t1,
            },
        )
    }
}

/// The leaf of an account in the state root: the digest of its address,
/// its balance (16 little-endian bytes) and its nonce (8 bytes).
pub open spec fn ledger_leaf(k: Seq<u8>, a: AccountState) -> Seq<u8> {
    sha256_spec(k + le_bytes(a.balance as nat, 16) + le_bytes(a.nonce as nat, 8))
}

/// The state root of a ledger: the Merkle root of its leaves in increasing
/// address order.
pub open spec fn ledger_root_spec(m: Map<Seq<u8>, AccountState>) -> Seq<u8> {
    merkle_fold(sorted_order(m.dom()).map_values(|k: Seq<u8>| ledger_leaf(k, m[k])))
}

/// The receipts root: the Merkle root of the digests of the receipts.
pub open spec fn raw_receipts_root_spec(rs: Seq<Seq<u8>>) -> Seq<u8> {
    merkle_fold(rs.map_values(|r: Seq<u8>| sha256_spec(r)))
}

/// The views of a list of byte vectors.
pub open spec fn byte_views(s: Seq<Vec<u8>>) -> Seq<Seq<u8>> {
    s.map_values(|v: Vec<u8>| v@)
}

/// The parts of a fee: burned, treasury, validators.
pub open spec fn fee_parts(f: FeeModule, amount: u128) -> (u128, u128, u128) {
    let burn = sat_mul128(amount, f.burn_percentage as u128) / 100;
    let treasury = sat_mul128(amount.saturating_sub(burn), f.treasury_share as u128) / 100;
    (burn, treasury, amount.saturating_sub(burn).saturating_sub(treasury))
}

/// The runtime: chain position, the ledger and the kernel's modules.
pub struct TetcoreRuntime {
    pub block_number: u64,
    pub block_hash: Hash32,
    pub parent_hash: Hash32,
    pub state_root: Hash32,
    pub timestamp: u64,
    pub chain_id: u32,
    pub accounts: Table<Address, AccountState>,
    pub consensus: ConsensusEngine,
    pub staking: StakingModule,
    pub treasury: Treasury,
    pub governance: GovernanceModule,
    pub inference: InferenceModule,
    pub contracts: ContractModule,
    pub fee_module: FeeModule,
    pub tx_pool: TransactionPool,
    pub storage: Table<Vec<u8>, Vec<u8>>,
}

impl TetcoreRuntime {
    /// The tables of the runtime and of its modules are well formed.
    pub open spec fn wf(&self) -> bool {
        &&& self.accounts.wf()
        &&& self.staking.wf()
        &&& self.governance.wf()
        &&& self.inference.wf()
        &&& self.contracts.wf()
        &&& self.storage.wf()
    }

    /// A runtime at block 0 with an empty ledger and fresh modules.
    pub fn new(chain_id: u32) -> (r: Self)
        ensures
            r.wf(),
            r.block_number == 0 && r.timestamp == 0 && r.chain_id == chain_id,
            r.block_hash.0@ == zeros32() && r.parent_hash.0@ == zeros32() && r.state_root.0@ == zeros32(),
            r.accounts@ == Map::<Seq<u8>, AccountState>::empty(),
            r.consensus.height == 0 && r.consensus.round == 0 && r.consensus.validator_set@.len() == 0,
            r.staking.total_staked == 0 && r.staking.total_shares == 0,
            r.staking.stakers@ == Map::<Seq<u8>, StakerInfo>::empty(),
            r.staking.token_supply == TokenSupply::new_spec(),
            r.staking.validators@ == Map::<Seq<u8>, ValidatorStake>::empty(),
            r.treasury.balance == 0,
            r.governance@.total_supply == 0,
            r.storage@ == Map::<Seq<u8>, Vec<u8>>::empty(),
            r.tx_pool.pending@.len() == 0 && r.tx_pool.ready@.len() == 0,
    {
        TetcoreRuntime {
            block_number: 0,
            block_hash: Hash32::empty(),
            parent_hash: Hash32::empty(),
            state_root: Hash32::empty(),
            timestamp: 0,
            chain_id,
            accounts: Table::new(),
            consensus: ConsensusEngine::new(),
            staking: StakingModule::new(),
            treasury: Treasury::new(),
            governance: GovernanceModule::new(0),
            inference: InferenceModule::new(),
            contracts: ContractModule::new(),
            fee_module: FeeModule::default(),
            tx_pool: TransactionPool::new(),
            storage: Table::new(),
        }
    }

    /// Creates (or replaces) the account at `address` with `balance`.
    pub fn create_account(&mut self, address: Address, balance: u128)
        requires
            old(self).wf(),
        ensures
            final(self).wf(),
            final(self).accounts@ == old(self).accounts@.insert(address.0@, fresh_account(balance)),
            *final(self) == (TetcoreRuntime { accounts: final(self).accounts, ..*old(self) }),
    {
        self.accounts.insert(address, AccountState::new(balance));
    }

    /// The balance of `address`, 0 for an unknown account.
    pub fn get_balance(&self, address: &Address) -> (r: u128)
        requires
            self.wf(),
        ensures
            r == (if self.accounts@.dom().contains(address.0@) { self.accounts@[address.0@].balance } else { 0 }),
    {
        match self.accounts.get(address) {
            Some(a) => a.balance,
            None => 0,
        }
    }

    /// Moves `amount` from an existing account to another, creating the
    /// recipient when it does not exist.
    pub fn transfer(&mut self, from: &Address, to: &Address, amount: u128) -> (r: Result<(), RuntimeError>)
        requires
            old(self).wf(),
        ensures
            final(self).wf(),
            final(self).staking == old(self).staking && final(self).block_number == old(self).block_number,
            ({
                let m = old(self).accounts@;
                let f = from.0@;
                let t = to.0@;
                &&& !m.dom().contains(f) ==> r == Err::<(), RuntimeError>(RuntimeError::AccountNotFound)
                    && final(self).accounts@ == m
                &&& m.dom().contains(f) && m[f].balance < amount ==> r == Err::<(), RuntimeError>(
                    RuntimeError::InsufficientBalance,
                ) && final(self).accounts@ == m
                &&& m.dom().contains(f) && m[f].balance >= amount ==> {
                    let m1 = m.insert(f, AccountState { balance: (m[f].balance - amount) as u128, ..m[f] });
                    let ta = if m1.dom().contains(t) {
                        m1[t]
                    } else {
                        fresh_account(0)
                    };
                    &&& r is Ok
                    &&& final(self).accounts@ == m1.insert(t, AccountState { balance: ta.balance.saturating_add(amount), ..ta })
                }
            }),
    {
        match self.accounts.get(from) {
            Some(a) => {
                if a.balance < amount {
                    return Err(RuntimeError::InsufficientBalance);
                }
            },
            None => {
                return Err(RuntimeError::AccountNotFound);
            },
        }
        match self.accounts.get_mut(from) {
            Some(a) => {
                a.balance = a.balance - amount;
            },
            None => {},
        }
        if !self.accounts.contains_key(to) {
            self.accounts.insert(*to, AccountState::new(0));
        }
        match self.accounts.get_mut(to) {
            Some(a) => {
                a.balance = a.balance.saturating_add(amount);
            },
            None => {},
        }
        Ok(())
    }

    /// Executes one raw transaction (see `raw_tx_spec`); it produces no
    /// output.
    fn execute_transaction(&mut self, tx_data: &[u8]) -> (r: Result<(Vec<u8>, u128), RuntimeError>)
        requires
            old(self).wf(),
            raw_tx_computable(tx_data@, old(self).fee_module),
        ensures
            final(self).wf(),
            final(self).accounts@ == raw_tx_spec(old(self).accounts@, old(self).fee_module, tx_data@).0,
            *final(self) == (TetcoreRuntime { accounts: final(self).accounts, ..*old(self) }),
            match raw_tx_spec(old(self).accounts@, old(self).fee_module, tx_data@).1 {
                Some(f) => r matches Ok(out) && out.0@.len() == 0 && out.1 == f,
                None => r is Err,
            },
    {
        if tx_data.len() < 32 + 8 + 8 {
            return Err(RuntimeError::InvalidTransaction);
        }
        let sender = Address(bytes32_from_slice(tx_data));
        proof {
            assert(sender.0@ =~= raw_sender(tx_data@));
        }
        let nonce = read_u64_le(tx_data, 32);
        let gas_limit = read_u64_le(tx_data, 40);
        let (balance, account_nonce) = match self.accounts.get(&sender) {
            Some(a) => (a.balance, a.nonce),
            None => {
                return Err(RuntimeError::AccountNotFound);
            },
        };
        if account_nonce != nonce {
            return Err(RuntimeError::InvalidNonce);
        }
        let fee = self.fee_module.compute_fee(gas_limit);
        if balance < fee {
            return Err(RuntimeError::InsufficientBalance);
        }
        match self.accounts.get_mut(&sender) {
            Some(a) => {
                a.balance = a.balance - fee;
                a.nonce = a.nonce + 1;
            },
            None => {},
        }
        Ok((Vec::new(), fee))
    }

    /// The Merkle root of the ledger (see `ledger_root_spec`).
    fn compute_state_root(&self) -> (r: Hash32)
        requires
            self.wf(),
        ensures
            r.0@ == ledger_root_spec(self.accounts@),
    {
        let keys = self.accounts.sorted_keys();
        let ghost order = sorted_order(self.accounts@.dom());
        let ghost m = self.accounts@;
        let ghost target = order.map_values(|k: Seq<u8>| ledger_leaf(k, m[k]));
        let mut leaves: Vec<[u8; 32]> = Vec::new();
        let mut i: usize = 0;
        while i < keys.len()
            invariant
                self.wf(),
                m == self.accounts@,
                views(keys@) == order,
                order.to_set() == m.dom(),
                target == order.map_values(|k: Seq<u8>| ledger_leaf(k, m[k])),
                i <= keys@.len(),
                leaves@.len() == i,
                target.len() == keys@.len(),
                arr_views(leaves@) == target.subrange(0, i as int),
            decreases keys@.len() - i,
        {
            assert(views(keys@)[i as int] == keys@[i as int].0@);
            assert(m.dom().contains(keys@[i as int].0@)) by {
                assert(order.to_set().contains(order[i as int]));
            }
            let acc = *self.accounts.get(&keys[i]).unwrap();
            let mut data: Vec<u8> = Vec::new();
            push_all(&mut data, keys[i].0.as_slice());
            push_le(&mut data, acc.balance, 16);
            push_le(&mut data, acc.nonce as u128, 8);
            let h = sha256(data.as_slice());
            let ghost old_leaves = leaves@;
            leaves.push(h);
            proof {
                assert(data@ =~= keys@[i as int].0@ + le_bytes(acc.balance as nat, 16) + le_bytes(acc.nonce as nat, 8));
                assert(arr_views(leaves@) =~= arr_views(old_leaves).push(h@));
                assert(target.subrange(0, i + 1) =~= target.subrange(0, i as int).push(target[i as int]));
            }
            i = i + 1;
        }
        proof {
            assert(target.subrange(0, i as int) =~= target);
        }
        Hash32(merkle_root(leaves))
    }

    /// The Merkle root of the digests of the receipts.
    fn compute_receipts_root(&self, receipts: &[Vec<u8>]) -> (r: Hash32)
        ensures
            r.0@ == raw_receipts_root_spec(byte_views(receipts@)),
    {
        let ghost target = byte_views(receipts@).map_values(|x: Seq<u8>| sha256_spec(x));
        let mut leaves: Vec<[u8; 32]> = Vec::new();
        let mut i: usize = 0;
        while i < receipts.len()
            invariant
                i <= receipts@.len(),
                target == byte_views(receipts@).map_values(|x: Seq<u8>| sha256_spec(x)),
                target.len() == receipts@.len(),
                arr_views(leaves@) == target.subrange(0, i as int),
            decreases receipts@.len() - i,
        {
            let h = sha256(receipts[i].as_slice());
            let ghost old_leaves = leaves@;
            leaves.push(h);
            proof {
                assert(arr_views(leaves@) =~= arr_views(old_leaves).push(h@));
                assert(target.subrange(0, i + 1) =~= target.subrange(0, i as int).push(target[i as int]));
            }
            i = i + 1;
        }
        proof {
            assert(target.subrange(0, i as int) =~= target);
        }
        Hash32(merkle_root(leaves))
    }

    /// Executes a block of raw transactions (see `raw_block_spec`): every
    /// transaction gets an empty receipt; the fees are split, the treasury
    /// keeping its part and the validators sharing theirs; the header
    /// carries the new state root, the receipts root, the timestamp and the
    /// consensus proposer (the zero address when there is none); the block
    /// number advances.
    pub fn execute_block(&mut self, txs: Vec<Vec<u8>>) -> (r: Result<SealedBlock, RuntimeError>)
        requires
            old(self).wf(),
            forall|i: int| 0 <= i < txs@.len() ==> raw_tx_computable(#[trigger] txs@[i]@, old(self).fee_module),
            old(self).staking.total_staked > 0 ==> ratios_computable(old(self).staking.validators@),
            old(self).consensus.height + old(self).consensus.round <= u64::MAX,
            old(self).block_number < u64::MAX,
        ensures
            final(self).wf(),
            ({
                let (m, total) = raw_block_spec(old(self).accounts@, old(self).fee_module, byte_views(txs@));
                let (_burn, to_treasury, to_validators) = fee_parts(old(self).fee_module, total);
                let vs = old(self).consensus.validator_set@;
                &&& r matches Ok(block) && {
                    &&& block.transactions == txs
                    &&& block.receipts@.len() == txs@.len()
                    &&& forall|i: int| 0 <= i < block.receipts@.len() ==> (#[trigger] block.receipts@[i])@.len() == 0
                    &&& block.header.parent_hash == old(self).parent_hash
                    &&& block.header.block_number == old(self).block_number
                    &&& block.header.state_root == final(self).state_root
                    &&& block.header.receipts_root.0@ == raw_receipts_root_spec(byte_views(block.receipts@))
                    &&& block.header.timestamp == old(self).timestamp
                    &&& block.header.validator.0@ == (if vs.len() == 0 {
                        zeros32()
                    } else {
                        vs[(((old(self).consensus.height + old(self).consensus.round) as u64) as usize) as int
                            % vs.len() as int].address.0@
                    })
                    &&& block.header.consensus_digest@.len() == 0 && block.header.extra@.len() == 0
                    &&& final(self).block_hash.0@ == header_hash_spec(block.header)
                }
                &&& final(self).accounts@ == m
                &&& final(self).state_root.0@ == ledger_root_spec(m)
                &&& final(self).treasury == (Treasury {
                    balance: old(self).treasury.balance.saturating_add(to_treasury),
                    ..old(self).treasury
                })
                &&& rewards_distributed(old(self).staking, final(self).staking, to_validators)
                &&& final(self).block_number == old(self).block_number + 1
                &&& final(self).parent_hash == old(self).parent_hash
                &&& final(self).timestamp == old(self).timestamp
                &&& final(self).chain_id == old(self).chain_id
                &&& final(self).consensus == old(self).consensus
                &&& final(self).governance == old(self).governance
                &&& final(self).inference == old(self).inference
                &&& final(self).contracts == old(self).contracts
                &&& final(self).fee_module == old(self).fee_module
                &&& final(self).tx_pool == old(self).tx_pool
                &&& final(self).storage == old(self).storage
            }),
    {
        let ghost s0 = *self;
        let ghost views_all = byte_views(txs@);
        let mut receipts: Vec<Vec<u8>> = Vec::new();
        let mut total_fees: u128 = 0;
        let mut i: usize = 0;
        proof {
            assert(views_all.take(0) =~= Seq::<Seq<u8>>::empty());
        }
        while i < txs.len()
            invariant
                self.wf(),
                *self == (TetcoreRuntime { accounts: self.accounts, ..s0 }),
                views_all == byte_views(txs@),
                i <= txs@.len(),
                forall|j: int| 0 <= j < txs@.len() ==> raw_tx_computable(#[trigger] txs@[j]@, s0.fee_module),
                (self.accounts@, total_fees) == raw_block_spec(s0.accounts@, s0.fee_module, views_all.take(i as int)),
                receipts@.len() == i,
                forall|j: int| 0 <= j < receipts@.len() ==> (#[trigger] receipts@[j])@.len() == 0,
            decreases txs@.len() - i,
        {
            proof {
                assert(views_all.take(i + 1).drop_last() =~= views_all.take(i as int));
                assert(views_all.take(i + 1).last() == txs@[i as int]@);
            }
            let result = self.execute_transaction(txs[i].as_slice());
            match result {
                Ok(receipt) => {
                    total_fees = total_fees.saturating_add(receipt.1);
                    receipts.push(receipt.0);
                },
                Err(_) => {
                    receipts.push(Vec::new());
                },
            }
            i = i + 1;
        }
        proof {
            assert(views_all.take(i as int) =~= views_all);
        }
        let (_burn, treasury_fee, validator_fee) = self.fee_module.distribute_fee(total_fees);
        self.treasury.deposit(treasury_fee);
        self.staking.distribute_block_rewards(validator_fee);
        let receipts_root = self.compute_receipts_root(receipts.as_slice());
        self.state_root = self.compute_state_root();
        let mut header = BlockHeader::new(self.parent_hash, self.block_number);
        header.state_root = self.state_root;
        header.receipts_root = receipts_root;
        header.timestamp = self.timestamp;
        header.validator = match self.consensus.get_proposer() {
            Some(a) => a,
            None => Address(zero32()),
        };
        let block_hash = header.hash();
        self.block_hash = block_hash;
        self.block_number = self.block_number + 1;
        Ok(SealedBlock::new(header, txs, receipts))
    }

    pub fn set_timestamp(&mut self, timestamp: u64)
        ensures
            *final(self) == (TetcoreRuntime { timestamp, ..*old(self) }),
    {
        self.timestamp = timestamp;
    }

    /// Adds a validator with `stake` to the consensus engine.
    pub fn add_validator(&mut self, address: Address, stake: u128)
        requires
            old(self).wf(),
        ensures
            final(self).wf(),
            final(self).consensus.validator_set@ == old(self).consensus.validator_set@.push(
                ValidatorInfo { address, stake, weight: 1, is_active: true },
            ),
            final(self).consensus.height == old(self).consensus.height,
            final(self).consensus.round == old(self).consensus.round,
            *final(self) == (TetcoreRuntime { consensus: final(self).consensus, ..*old(self) }),
    {
        self.consensus.add_validator(ValidatorInfo::new(address, stake));
    }

    /// Mints the block's inflation and deposits the treasury's part.
    pub fn process_inflation(&mut self)
        ensures
            ({
                let c = old(self).staking.inflation_config;
                let supply = old(self).staking.token_supply;
                let mint = crate::kernel::economics::mint_spec(c, supply.total.saturating_sub(supply.burned));
                let active = crate::kernel::economics::inflation_active(c, old(self).block_number) && mint != 0;
                let t = if active { crate::kernel::economics::treasury_part(c, mint) } else { 0 };
                &&& final(self).treasury == (Treasury { balance: old(self).treasury.balance.saturating_add(t), ..old(self).treasury })
                &&& !active ==> final(self).staking == old(self).staking
                &&& *final(self) == (TetcoreRuntime { staking: final(self).staking, treasury: final(self).treasury, ..*old(self) })
            }),
    {
        let (treasury_amount, _) = self.staking.process_inflation(self.block_number);
        self.treasury.deposit(treasury_amount);
    }

    /// Loads a genesis state: its accounts into the ledger (with their
    /// balances), its validators as active validators with a 10%
    /// commission (one already registered stays as it is), and the sum of
    /// the balances as the governance supply.
    pub fn initialize_genesis(&mut self, state: &GenesisState)
        requires
            old(self).wf(),
            state.wf(),
            genesis_balance_sum(state.accounts.seq()) <= u128::MAX,
        ensures
            final(self).wf(),
            final(self).accounts@ == genesis_ledger(old(self).accounts@, state.accounts.seq()),
            final(self).staking.validators@ == register_all(old(self).staking.validators@, state.validators@),
            final(self).staking == (StakingModule { validators: final(self).staking.validators, ..old(self).staking }),
            final(self).governance@ == (GovernanceView {
                total_supply: genesis_balance_sum(state.accounts.seq()) as u128,
                ..old(self).governance@
            }),
            *final(self) == (TetcoreRuntime {
                accounts: final(self).accounts,
                staking: final(self).staking,
                governance: final(self).governance,
                ..*old(self)
            }),
    {
        let ghost src = state.accounts.seq();
        let n = state.accounts.len();
        let mut i: usize = 0;
        let mut total: u128 = 0;
        let ghost s0 = *self;
        proof {
            assert(src.take(0) =~= Seq::<(Address, GenesisAccount)>::empty());
        }
        while i < n
            invariant
                state.wf(),
                src == state.accounts.seq(),
                n == src.len(),
                i <= n,
                self.accounts.wf(),
                *self == (TetcoreRuntime { accounts: self.accounts, ..s0 }),
                self.accounts@ == genesis_ledger(s0.accounts@, src.take(i as int)),
                total == genesis_balance_sum(src.take(i as int)),
                genesis_balance_sum(src) <= u128::MAX,
            decreases n - i,
        {
            proof {
                assert(src.take(i + 1).drop_last() =~= src.take(i as int));
                lemma_balance_sum_prefix(src, i as int);
            }
            let address = *state.accounts.key_at(i);
            let balance = state.accounts.value_at(i).balance;
            self.accounts.insert(address, AccountState::new(balance));
            total = total + balance;
            i = i + 1;
        }
        proof {
            assert(src.take(n as int) =~= src);
        }
        let mut j: usize = 0;
        let ghost s1 = *self;
        proof {
            assert(state.validators@.take(0) =~= Seq::<Address>::empty());
        }
        while j < state.validators.len()
            invariant
                j <= state.validators@.len(),
                self.staking.wf(),
                *self == (TetcoreRuntime { staking: self.staking, ..s1 }),
                self.staking == (StakingModule { validators: self.staking.validators, ..s1.staking }),
                self.staking.validators@ == register_all(s1.staking.validators@, state.validators@.take(j as int)),
                s1.wf(),
            decreases state.validators@.len() - j,
        {
            proof {
                assert(state.validators@.take(j + 1).drop_last() =~= state.validators@.take(j as int));
            }
            let _ = self.staking.register_validator(state.validators[j], 1000);
            j = j + 1;
        }
        proof {
            assert(state.validators@.take(j as int) =~= state.validators@);
        }
        self.governance.update_total_supply(total);
    }
}

/// The ledger after loading genesis accounts: each address gets a fresh
/// account with its balance.
pub open spec fn genesis_ledger(m: Map<Seq<u8>, AccountState>, s: Seq<(Address, GenesisAccount)>) -> Map<Seq<u8>, AccountState>
    decreases s.len(),
{
    if s.len() == 0 {
        m
    } else {
        genesis_ledger(m, s.drop_last()).insert(s.last().0.0@, fresh_account(s.last().1.balance))
    }
}

/// The sum of the balances of genesis accounts.
pub open spec fn genesis_balance_sum(s: Seq<(Address, GenesisAccount)>) -> int
    decreases s.len(),
{
    if s.len() == 0 {
        0
    } else {
        genesis_balance_sum(s.drop_last()) + s.last().1.balance
    }
}

/// A prefix sum of balances is at most the whole sum.
proof fn lemma_balance_sum_prefix(s: Seq<(Address, GenesisAccount)>, i: int)
    requires
        0 <= i < s.len(),
    ensures
        genesis_balance_sum(s.take(i + 1)) <= genesis_balance_sum(s),
        genesis_balance_sum(s.take(i + 1)) == genesis_balance_sum(s.take(i)) + s[i].1.balance,
    decreases s.len(),
{
    assert(s.take(i + 1).drop_last() =~= s.take(i));
    if i + 1 < s.len() {
        lemma_balance_sum_prefix(s.drop_last(), i);
        assert(s.drop_last().take(i + 1) =~= s.take(i + 1));
    } else {
        assert(s.take(i + 1) =~= s);
    }
}

/// The validators after registering each of `vs` with a 10% commission;
/// one already registered stays as it is.
pub open spec fn register_all(m: Map<Seq<u8>, ValidatorStake>, vs: Seq<Address>) -> Map<Seq<u8>, ValidatorStake>
    decreases vs.len(),
{
    if vs.len() == 0 {
        m
    } else {
        let m1 = register_all(m, vs.drop_last());
        let v = vs.last();
        if m1.dom().contains(v.0@) {
            m1
        } else {
            m1.insert(v.0@, ValidatorStake { commission_bps: 1000, active: true, ..ValidatorStake::new_spec(v) })
        }
    }
}

/// The staking pool's part of a staking module.
pub struct StakePool {
    pub stakers: Map<Seq<u8>, StakerInfo>,
    pub total_staked: u128,
    pub total_shares: u128,
    pub supply: TokenSupply,
}

pub open spec fn pool_of(m: StakingModule) -> StakePool {
    StakePool { stakers: m.stakers@, total_staked: m.total_staked, total_shares: m.total_shares, supply: m.token_supply }
}

/// The pool after `a` stakes `amount` at height `h` (nothing for a zero
/// amount), as `StakingModule::stake` does it.
pub open spec fn stake_step(p: StakePool, a: Address, amount: u128, h: u64) -> StakePool {
    if amount == 0 {
        p
    } else {
        let prev = staker_entry(p.stakers, a);
        let s = shares_for(amount, p.total_staked, p.total_shares) as u128;
        StakePool {
            stakers: p.stakers.insert(
                a.0@,
                StakerInfo {
                    shares: prev.shares.saturating_add(s),
                    staked: prev.staked.saturating_add(amount),
                    last_stake_height: h,
                    ..prev
                },
            ),
            total_staked: p.total_staked.saturating_add(amount),
            total_shares: p.total_shares.saturating_add(s),
            supply: TokenSupply {
                circulating: p.supply.circulating.saturating_sub(amount),
                escrowed: p.supply.escrowed.saturating_add(amount),
                ..p.supply
            },
        }
    }
}

/// The pool after each validator stakes its amount at height 0.
pub open spec fn stake_all(p: StakePool, vs: Seq<(Address, u128)>) -> StakePool
    decreases vs.len(),
{
    if vs.len() == 0 {
        p
    } else {
        stake_step(stake_all(p, vs.drop_last()), vs.last().0, vs.last().1, 0)
    }
}

/// Whether every stake of `vs` can be computed without overflow.
pub open spec fn stake_all_computable(p: StakePool, vs: Seq<(Address, u128)>) -> bool
    decreases vs.len(),
{
    if vs.len() == 0 {
        true
    } else {
        let q = stake_all(p, vs.drop_last());
        stake_all_computable(p, vs.drop_last()) && stake_computable(vs.last().1, q.total_staked, q.total_shares)
    }
}

/// The ledger after creating an account for each pair.
pub open spec fn ledger_of(m: Map<Seq<u8>, AccountState>, bs: Seq<(Address, u128)>) -> Map<Seq<u8>, AccountState>
    decreases bs.len(),
{
    if bs.len() == 0 {
        m
    } else {
        ledger_of(m, bs.drop_last()).insert(bs.last().0.0@, fresh_account(bs.last().1))
    }
}

/// Builds a runtime from initial balances and validators.
pub struct RuntimeBuilder {
    chain_id: u32,
    initial_balances: Vec<(Address, u128)>,
    initial_validators: Vec<(Address, u128)>,
    enable_governance: bool,
    enable_ifp: bool,
    enable_tvm: bool,
}

/// The model of a runtime builder.
pub struct RuntimeBuilderView {
    pub chain_id: u32,
    pub balances: Seq<(Address, u128)>,
    pub validators: Seq<(Address, u128)>,
    pub governance: bool,
    pub ifp: bool,
    pub tvm: bool,
}

impl View for RuntimeBuilder {
    type V = RuntimeBuilderView;

    closed spec fn view(&self) -> RuntimeBuilderView {
        RuntimeBuilderView {
            chain_id: self.chain_id,
            balances: self.initial_balances@,
            validators: self.initial_validators@,
            governance: self.enable_governance,
            ifp: self.enable_ifp,
            tvm: self.enable_tvm,
        }
    }
}

impl RuntimeBuilder {
    /// A builder with no accounts or validators and every module enabled.
    pub fn new(chain_id: u32) -> (r: Self)
        ensures
            r@ == (RuntimeBuilderView {
                chain_id,
                balances: Seq::empty(),
                validators: Seq::empty(),
                governance: true,
                ifp: true,
                tvm: true,
            }),
    {
        RuntimeBuilder {
            chain_id,
            initial_balances: Vec::new(),
            initial_validators: Vec::new(),
            enable_governance: true,
            enable_ifp: true,
            enable_tvm: true,
        }
    }

    pub fn with_account(self, address: Address, balance: u128) -> (r: Self)
        ensures
            r@ == (RuntimeBuilderView { balances: self@.balances.push((address, balance)), ..self@ }),
    {
        let mut b = self;
        b.initial_balances.push((address, balance));
        b
    }

    pub fn with_validator(self, address: Address, stake: u128) -> (r: Self)
        ensures
            r@ == (RuntimeBuilderView { validators: self@.validators.push((address, stake)), ..self@ }),
    {
        let mut b = self;
        b.initial_validators.push((address, stake));
        b
    }

    pub fn with_governance(self, enabled: bool) -> (r: Self)
        ensures
            r@ == (RuntimeBuilderView { governance: enabled, ..self@ }),
    {
        let mut b = self;
        b.enable_governance = enabled;
        b
    }

    pub fn with_ifp(self, enabled: bool) -> (r: Self)
        ensures
            r@ == (RuntimeBuilderView { ifp: enabled, ..self@ }),
    {
        let mut b = self;
        b.enable_ifp = enabled;
        b
    }

    pub fn with_tvm(self, enabled: bool) -> (r: Self)
        ensures
            r@ == (RuntimeBuilderView { tvm: enabled, ..self@ }),
    {
        let mut b = self;
        b.enable_tvm = enabled;
        b
    }

    /// A runtime whose ledger holds the initial balances (a later pair
    /// replacing an earlier one at the same address) and whose validators
    /// join the consensus set and stake their amounts at height 0.
    pub fn build(self) -> (r: TetcoreRuntime)
        requires
            stake_all_computable(
                StakePool { stakers: Map::empty(), total_staked: 0, total_shares: 0, supply: TokenSupply::new_spec() },
                self@.validators,
            ),
        ensures
            r.wf(),
            r.chain_id == self@.chain_id,
            r.block_number == 0 && r.timestamp == 0,
            r.accounts@ == ledger_of(Map::empty(), self@.balances),
            r.consensus.validator_set@ == self@.validators.map_values(
                |v: (Address, u128)| ValidatorInfo { address: v.0, stake: v.1, weight: 1, is_active: true },
            ),
            pool_of(r.staking) == stake_all(
                StakePool { stakers: Map::empty(), total_staked: 0, total_shares: 0, supply: TokenSupply::new_spec() },
                self@.validators,
            ),
            r.staking.validators@ == Map::<Seq<u8>, ValidatorStake>::empty(),
    {
        let mut runtime = TetcoreRuntime::new(self.chain_id);
        let ghost p0 = pool_of(runtime.staking);
        assert(p0 == StakePool { stakers: Map::empty(), total_staked: 0, total_shares: 0, supply: TokenSupply::new_spec() });
        let balances = self.initial_balances;
        let validators = self.initial_validators;
        let mut i: usize = 0;
        proof {
            assert(balances@.take(0) =~= Seq::<(Address, u128)>::empty());
        }
        while i < balances.len()
            invariant
                i <= balances@.len(),
                runtime.wf(),
                runtime.chain_id == self@.chain_id,
                runtime.block_number == 0 && runtime.timestamp == 0,
                runtime.accounts@ == ledger_of(Map::empty(), balances@.take(i as int)),
                runtime.consensus.validator_set@.len() == 0,
                pool_of(runtime.staking) == p0,
                runtime.staking.validators@ == Map::<Seq<u8>, ValidatorStake>::empty(),
            decreases balances@.len() - i,
        {
            proof {
                assert(balances@.take(i + 1).drop_last() =~= balances@.take(i as int));
            }
            let (address, balance) = balances[i];
            runtime.create_account(address, balance);
            i = i + 1;
        }
        proof {
            assert(balances@.take(i as int) =~= balances@);
        }
        let mut j: usize = 0;
        proof {
            assert(validators@.take(0) =~= Seq::<(Address, u128)>::empty());
        }
        while j < validators.len()
            invariant
                j <= validators@.len(),
                validators@ == self@.validators,
                runtime.wf(),
                runtime.chain_id == self@.chain_id,
                runtime.block_number == 0 && runtime.timestamp == 0,
                runtime.accounts@ == ledger_of(Map::empty(), balances@),
                balances@ == self@.balances,
                runtime.consensus.validator_set@ == validators@.take(j as int).map_values(
                    |v: (Address, u128)| ValidatorInfo { address: v.0, stake: v.1, weight: 1, is_active: true },
                ),
                pool_of(runtime.staking) == stake_all(p0, validators@.take(j as int)),
                stake_all_computable(p0, validators@),
                runtime.staking.validators@ == Map::<Seq<u8>, ValidatorStake>::empty(),
            decreases validators@.len() - j,
        {
            proof {
                assert(validators@.take(j + 1).drop_last() =~= validators@.take(j as int));
                lemma_stake_all_computable_prefix(p0, validators@, j + 1);
                assert(validators@.take(j + 1).last() == validators@[j as int]);
            }
            let (address, stake) = validators[j];
            let ghost before = runtime.consensus.validator_set@;
            runtime.add_validator(address, stake);
            let _ = runtime.staking.stake(address, stake, 0);
            proof {
                assert(runtime.consensus.validator_set@ =~= validators@.take(j + 1).map_values(
                    |v: (Address, u128)| ValidatorInfo { address: v.0, stake: v.1, weight: 1, is_active: true },
                ));
            }
            j = j + 1;
        }
        proof {
            assert(validators@.take(j as int) =~= validators@);
        }
        runtime
    }
}

/// Whether staking every prefix of `vs` can be computed follows from the
/// whole list.
proof fn lemma_stake_all_computable_prefix(p: StakePool, vs: Seq<(Address, u128)>, k: int)
    requires
        0 <= k <= vs.len(),
        stake_all_computable(p, vs),
    ensures
        stake_all_computable(p, vs.take(k)),
    decreases vs.len(),
{
    if k < vs.len() {
        lemma_stake_all_computable_prefix(p, vs.drop_last(), k);
        assert(vs.drop_last().take(k) =~= vs.take(k));
    } else {
        assert(vs.take(k) =~= vs);
    }
}

} // verus!
