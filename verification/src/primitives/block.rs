//! Block building: a builder that admits transactions within gas, size and
//! count limits, computes the transaction and receipt roots, and yields a
//! block to seal; block statistics, metadata and production strategies.

use vstd::prelude::*;
use crate::bytes::{le_bytes, push_all, push_le};
use crate::digest::{sha256, sha256_spec};
use crate::kernel::{Address, Hash32, empty_hash32};
use crate::primitives::runtime::{Digest, DigestItem, Header, Log, Receipt, Signature, Transaction, header_encoding, tx_encoding};

verus! {

#[derive(Clone, Copy, Debug, PartialEq, Eq, Structural)]
pub struct BlockBuilderConfig {
    pub max_gas: u64,
    pub max_transactions: u32,
    pub max_size_bytes: u32,
    pub min_timestamp: Option<u64>,
}

pub open spec fn default_builder_config() -> BlockBuilderConfig {
    BlockBuilderConfig { max_gas: 50_000_000, max_transactions: 1000, max_size_bytes: 5_242_880, min_timestamp: None }
}

impl Default for BlockBuilderConfig {
    fn default() -> (r: Self)
        ensures
            r == default_builder_config(),
    {
        BlockBuilderConfig { max_gas: 50_000_000, max_transactions: 1000, max_size_bytes: 5_242_880, min_timestamp: None }
    }
}

#[derive(Clone, Debug)]
pub struct BlockBuilder {
    pub parent_hash: Hash32,
    pub number: u64,
    pub timestamp: u64,
    pub transactions: Vec<Transaction>,
    pub receipts: Vec<Receipt>,
    pub gas_used: u64,
    pub size_bytes: u32,
    pub digest: Digest,
    pub config: BlockBuilderConfig,
}

/// The transactions' hashes, one after the other.
pub open spec fn tx_hashes_bytes(txs: Seq<Transaction>) -> Seq<u8>
    decreases txs.len(),
{
    if txs.len() == 0 {
        Seq::empty()
    } else {
        tx_hashes_bytes(txs.drop_last()) + sha256_spec(tx_encoding(txs.last()))
    }
}

/// Each receipt's transaction hash and gas (8 little-endian bytes).
pub open spec fn receipt_bytes(rs: Seq<Receipt>) -> Seq<u8>
    decreases rs.len(),
{
    if rs.len() == 0 {
        Seq::empty()
    } else {
        receipt_bytes(rs.drop_last()) + rs.last().transaction_hash.0@ + le_bytes(rs.last().gas_used as nat, 8)
    }
}

/// Whether `b` is a fresh builder on top of `parent_hash` at `number`.
pub open spec fn fresh_builder(b: BlockBuilder, parent_hash: Hash32, number: u64, config: BlockBuilderConfig) -> bool {
    &&& b.parent_hash == parent_hash && b.number == number && b.timestamp == 0
    &&& b.transactions@.len() == 0 && b.receipts@.len() == 0
    &&& b.gas_used == 0 && b.size_bytes == 0
    &&& b.digest.logs@.len() == 0
    &&& b.config == config
}

/// Why a transaction was not admitted.
#[derive(Clone, Copy, Debug, PartialEq, Eq, Structural)]
pub enum BlockBuilderError {
    TooManyTransactions,
    BlockTooBig,
    GasExceeded,
    InvalidTransaction,
    SealAlreadySet,
}

impl BlockBuilder {
    pub fn new(parent_hash: Hash32, number: u64) -> (r: Self)
        ensures
            fresh_builder(r, parent_hash, number, default_builder_config()),
    {
        BlockBuilder::with_config(parent_hash, number, BlockBuilderConfig::default())
    }

    pub fn with_config(parent_hash: Hash32, number: u64, config: BlockBuilderConfig) -> (r: Self)
        ensures
            fresh_builder(r, parent_hash, number, config),
    {
        BlockBuilder {
            parent_hash,
            number,
            timestamp: 0,
            transactions: Vec::new(),
            receipts: Vec::new(),
            gas_used: 0,
            size_bytes: 0,
            digest: Digest::new(),
            config,
        }
    }

    /// Sets the timestamp, raised to the configured minimum if there is one.
    pub fn timestamp(self, timestamp: u64) -> (r: Self)
        ensures
            r.timestamp == match self.config.min_timestamp {
                Some(m) => if timestamp >= m { timestamp } else { m },
                None => timestamp,
            },
            r.parent_hash == self.parent_hash && r.number == self.number,
            r.transactions == self.transactions && r.receipts == self.receipts,
            r.gas_used == self.gas_used && r.size_bytes == self.size_bytes,
            r.digest == self.digest && r.config == self.config,
    {
        let mut b = self;
        match b.config.min_timestamp {
            Some(min_ts) => {
                b.timestamp = if timestamp >= min_ts {
                    timestamp
                } else {
                    min_ts
                };
            },
            None => {
                b.timestamp = timestamp;
            },
        }
        b
    }

    /// Admits `transaction` while the count, the size (of its encoding, cut
    /// to 32 bits) and the gas (of the receipts so far plus its limit) stay
    /// within the configuration.
    pub fn push_transaction(self, transaction: Transaction) -> (r: Result<Self, BlockBuilderError>)
        requires
            self.transactions@.len() < self.config.max_transactions ==> self.size_bytes + (tx_encoding(
                transaction,
            ).len() as u32) <= u32::MAX,
            self.transactions@.len() < self.config.max_transactions && self.size_bytes + (tx_encoding(
                transaction,
            ).len() as u32) <= self.config.max_size_bytes ==> self.gas_used + transaction.gas_limit <= u64::MAX,
        ensures
            ({
                let size = (tx_encoding(transaction).len() as u32) as int;
                &&& self.transactions@.len() >= self.config.max_transactions ==> r == Err::<Self, BlockBuilderError>(
                    BlockBuilderError::TooManyTransactions,
                )
                &&& self.transactions@.len() < self.config.max_transactions && self.size_bytes + size
                    > self.config.max_size_bytes ==> r == Err::<Self, BlockBuilderError>(BlockBuilderError::BlockTooBig)
                &&& self.transactions@.len() < self.config.max_transactions && self.size_bytes + size
                    <= self.config.max_size_bytes && self.gas_used + transaction.gas_limit > self.config.max_gas ==> r
                    == Err::<Self, BlockBuilderError>(BlockBuilderError::GasExceeded)
                &&& r is Ok <==> self.transactions@.len() < self.config.max_transactions && self.size_bytes + size
                    <= self.config.max_size_bytes && self.gas_used + transaction.gas_limit <= self.config.max_gas
                &&& r matches Ok(b) ==> b.transactions@ == self.transactions@.push(transaction) && b.size_bytes
                    == self.size_bytes + size && b.parent_hash == self.parent_hash && b.number == self.number
                    && b.timestamp == self.timestamp && b.receipts == self.receipts && b.gas_used == self.gas_used
                    && b.digest == self.digest && b.config == self.config
            }),
    {
        if self.transactions.len() >= self.config.max_transactions as usize {
            return Err(BlockBuilderError::TooManyTransactions);
        }
        let encoded = transaction.encode();
        let tx_size = encoded.len() as u32;
        if self.size_bytes + tx_size > self.config.max_size_bytes {
            return Err(BlockBuilderError::BlockTooBig);
        }
        if self.gas_used + transaction.gas_limit > self.config.max_gas {
            return Err(BlockBuilderError::GasExceeded);
        }
        let mut b = self;
        b.size_bytes = b.size_bytes + tx_size;
        b.transactions.push(transaction);
        Ok(b)
    }

    /// Records a receipt and the gas it used.
    pub fn push_receipt(self, receipt: Receipt) -> (r: Self)
        requires
            self.gas_used + receipt.gas_used <= u64::MAX,
        ensures
            r.gas_used == self.gas_used + receipt.gas_used,
            r.receipts@ == self.receipts@.push(receipt),
            r.parent_hash == self.parent_hash && r.number == self.number && r.timestamp == self.timestamp,
            r.transactions == self.transactions && r.size_bytes == self.size_bytes,
            r.digest == self.digest && r.config == self.config,
    {
        let mut b = self;
        b.gas_used = b.gas_used + receipt.gas_used;
        b.receipts.push(receipt);
        b
    }

    pub fn push_digest_item(self, item: DigestItem) -> (r: Self)
        ensures
            r.digest.logs@ == self.digest.logs@.push(item),
            r.parent_hash == self.parent_hash && r.number == self.number && r.timestamp == self.timestamp,
            r.transactions == self.transactions && r.receipts == self.receipts,
            r.gas_used == self.gas_used && r.size_bytes == self.size_bytes && r.config == self.config,
    {
        let mut b = self;
        b.digest.push(item);
        b
    }

    /// The block: a header with an empty state root, the transaction and
    /// receipt roots, the digest and timestamp, and validator set 0.
    pub fn build(self) -> (r: BuildableBlock)
        ensures
            r.header.parent_hash == self.parent_hash && r.header.number == self.number,
            r.header.state_root == empty_hash32(),
            r.header.transaction_root.0@ == sha256_spec(tx_hashes_bytes(self.transactions@)),
            r.header.receipts_root.0@ == sha256_spec(receipt_bytes(self.receipts@)),
            r.header.digest == self.digest && r.header.timestamp == self.timestamp,
            r.header.validator_set_id == 0,
            r.transactions == self.transactions && r.receipts == self.receipts,
    {
        let state_root = Hash32::empty();
        let transaction_root = self.compute_transaction_root();
        let receipts_root = self.compute_receipts_root();
        let header = Header {
            parent_hash: self.parent_hash,
            number: self.number,
            state_root,
            transaction_root,
            receipts_root,
            digest: self.digest,
            timestamp: self.timestamp,
            validator_set_id: 0,
        };
        BuildableBlock { header, transactions: self.transactions, receipts: self.receipts }
    }

    fn compute_transaction_root(&self) -> (r: Hash32)
        ensures
            r.0@ == sha256_spec(tx_hashes_bytes(self.transactions@)),
    {
        let mut data: Vec<u8> = Vec::new();
        let mut i: usize = 0;
        while i < self.transactions.len()
            invariant
                i <= self.transactions@.len(),
                data@ == tx_hashes_bytes(self.transactions@.take(i as int)),
            decreases self.transactions@.len() - i,
        {
            let h = self.transactions[i].hash();
            push_all(&mut data, h.0.as_slice());
            proof {
                assert(self.transactions@.take(i + 1).drop_last() =~= self.transactions@.take(i as int));
            }
            i = i + 1;
        }
        assert(self.transactions@.take(i as int) =~= self.transactions@);
        Hash32(sha256(data.as_slice()))
    }

    fn compute_receipts_root(&self) -> (r: Hash32)
        ensures
            r.0@ == sha256_spec(receipt_bytes(self.receipts@)),
    {
        let mut data: Vec<u8> = Vec::new();
        let mut i: usize = 0;
        while i < self.receipts.len()
            invariant
                i <= self.receipts@.len(),
                data@ == receipt_bytes(self.receipts@.take(i as int)),
            decreases self.receipts@.len() - i,
        {
            push_all(&mut data, self.receipts[i].transaction_hash.0.as_slice());
            push_le(&mut data, self.receipts[i].gas_used as u128, 8);
            proof {
                assert(self.receipts@.take(i + 1).drop_last() =~= self.receipts@.take(i as int));
            }
            i = i + 1;
        }
        assert(self.receipts@.take(i as int) =~= self.receipts@);
        Hash32(sha256(data.as_slice()))
    }

    pub fn gas_used(&self) -> (r: u64)
        ensures
            r == self.gas_used,
    {
        self.gas_used
    }

    /// The number of transactions, cut to 32 bits.
    pub fn transaction_count(&self) -> (r: u32)
        ensures
            r == self.transactions@.len() as u32,
    {
        self.transactions.len() as u32
    }

    pub fn size_bytes(&self) -> (r: u32)
        ensures
            r == self.size_bytes,
    {
        self.size_bytes
    }

    pub fn is_empty(&self) -> (r: bool)
        ensures
            r == (self.transactions@.len() == 0),
    {
        self.transactions.len() == 0
    }
}

#[derive(Clone, Debug)]
pub struct BuildableBlock {
    pub header: Header,
    pub transactions: Vec<Transaction>,
    pub receipts: Vec<Receipt>,
}

/// The transactions' encodings, one after the other.
pub open spec fn txs_bytes(txs: Seq<Transaction>) -> Seq<u8>
    decreases txs.len(),
{
    if txs.len() == 0 {
        Seq::empty()
    } else {
        txs_bytes(txs.drop_last()) + tx_encoding(txs.last())
    }
}

/// The receipts' gas, 8 little-endian bytes each.
pub open spec fn gas_bytes(rs: Seq<Receipt>) -> Seq<u8>
    decreases rs.len(),
{
    if rs.len() == 0 {
        Seq::empty()
    } else {
        gas_bytes(rs.drop_last()) + le_bytes(rs.last().gas_used as nat, 8)
    }
}

/// The encoding of a block: its header hash, the transaction count (4
/// bytes, cut) and the transactions' encodings, the receipt count and each
/// receipt's gas.
pub open spec fn block_encoding(b: BuildableBlock) -> Seq<u8> {
    sha256_spec(header_encoding(b.header)) + le_bytes((b.transactions@.len() as u32) as nat, 4) + txs_bytes(
        b.transactions@,
    ) + le_bytes((b.receipts@.len() as u32) as nat, 4) + gas_bytes(b.receipts@)
}

impl BuildableBlock {
    pub fn hash(&self) -> (r: Hash32)
        ensures
            r.0@ == sha256_spec(header_encoding(self.header)),
    {
        self.header.hash()
    }

    pub fn encode(&self) -> (r: Vec<u8>)
        ensures
            r@ == block_encoding(*self),
    {
        let mut bytes: Vec<u8> = Vec::new();
        let h = self.header.hash();
        push_all(&mut bytes, h.0.as_slice());
        push_le(&mut bytes, (self.transactions.len() as u32) as u128, 4);
        let ghost prefix = bytes@;
        let mut i: usize = 0;
        while i < self.transactions.len()
            invariant
                i <= self.transactions@.len(),
                bytes@ == prefix + txs_bytes(self.transactions@.take(i as int)),
            decreases self.transactions@.len() - i,
        {
            let e = self.transactions[i].encode();
            push_all(&mut bytes, e.as_slice());
            proof {
                assert(self.transactions@.take(i + 1).drop_last() =~= self.transactions@.take(i as int));
            }
            i = i + 1;
            assert(bytes@ =~= prefix + txs_bytes(self.transactions@.take(i as int)));
        }
        assert(self.transactions@.take(i as int) =~= self.transactions@);
        push_le(&mut bytes, (self.receipts.len() as u32) as u128, 4);
        let ghost prefix2 = bytes@;
        let mut j: usize = 0;
        while j < self.receipts.len()
            invariant
                j <= self.receipts@.len(),
                bytes@ == prefix2 + gas_bytes(self.receipts@.take(j as int)),
            decreases self.receipts@.len() - j,
        {
            push_le(&mut bytes, self.receipts[j].gas_used as u128, 8);
            proof {
                assert(self.receipts@.take(j + 1).drop_last() =~= self.receipts@.take(j as int));
            }
            j = j + 1;
            assert(bytes@ =~= prefix2 + gas_bytes(self.receipts@.take(j as int)));
        }
        assert(self.receipts@.take(j as int) =~= self.receipts@);
        bytes
    }

    pub fn header(&self) -> (r: &Header)
        ensures
            *r == self.header,
    {
        &self.header
    }

    pub fn transactions(&self) -> (r: &[Transaction])
        ensures
            r@ == self.transactions@,
    {
        self.transactions.as_slice()
    }

    pub fn receipts(&self) -> (r: &[Receipt])
        ensures
            r@ == self.receipts@,
    {
        self.receipts.as_slice()
    }
}

#[derive(Clone, Debug)]
pub struct SealedBlock {
    pub header: Header,
    pub transactions: Vec<Transaction>,
    pub receipts: Vec<Receipt>,
    pub signature: Option<Signature>,
}

impl SealedBlock {
    pub fn new(block: BuildableBlock) -> (r: Self)
        ensures
            r.header == block.header && r.transactions == block.transactions && r.receipts == block.receipts,
            r.signature is None,
    {
        SealedBlock { header: block.header, transactions: block.transactions, receipts: block.receipts, signature: None }
    }

    pub fn seal(self, signature: Signature) -> (r: Self)
        ensures
            r == (SealedBlock { signature: Some(signature), ..self }),
    {
        SealedBlock { signature: Some(signature), ..self }
    }

    pub fn hash(&self) -> (r: Hash32)
        ensures
            r.0@ == sha256_spec(header_encoding(self.header)),
    {
        self.header.hash()
    }

    pub fn is_sealed(&self) -> (r: bool)
        ensures
            r == self.signature is Some,
    {
        self.signature.is_some()
    }
}

#[derive(Clone, Debug)]
pub struct BlockImportContext {
    pub parent_block: Header,
    pub state_root: Hash32,
    pub storage_changes: Vec<(Vec<u8>, Option<Vec<u8>>)>,
    pub events: Vec<Log>,
}

impl BlockImportContext {
    pub fn new(parent_block: Header) -> (r: Self)
        ensures
            r.parent_block == parent_block && r.state_root == empty_hash32(),
            r.storage_changes@.len() == 0 && r.events@.len() == 0,
    {
        BlockImportContext {
            parent_block,
            state_root: Hash32::empty(),
            storage_changes: Vec::new(),
            events: Vec::new(),
        }
    }
}

#[derive(Clone, Debug)]
pub struct BlockExport {
    pub block: SealedBlock,
    pub justifications: Vec<Justification>,
}

#[derive(Clone, Debug)]
pub struct Justification {
    pub validator: Address,
    pub signature: Signature,
    pub round: u64,
}

/// Counts gathered while a block is executed.
#[derive(Clone, Copy, Debug, Default, PartialEq, Eq, Structural)]
pub struct BlockStats {
    pub transaction_count: u32,
    pub gas_used: u64,
    pub storage_read_count: u64,
    pub storage_write_count: u64,
    pub event_count: u32,
    pub size_bytes: u32,
}

impl BlockStats {
    pub fn new() -> (r: Self)
        ensures
            r == (BlockStats {
                transaction_count: 0,
                gas_used: 0,
                storage_read_count: 0,
                storage_write_count: 0,
                event_count: 0,
                size_bytes: 0,
            }),
    {
        BlockStats {
            transaction_count: 0,
            gas_used: 0,
            storage_read_count: 0,
            storage_write_count: 0,
            event_count: 0,
            size_bytes: 0,
        }
    }

    pub fn record_transaction(&mut self)
        requires
            old(self).transaction_count < u32::MAX,
        ensures
            *final(self) == (BlockStats { transaction_count: (old(self).transaction_count + 1) as u32, ..*old(self) }),
    {
        self.transaction_count = self.transaction_count + 1;
    }

    pub fn record_gas(&mut self, gas: u64)
        requires
            old(self).gas_used + gas <= u64::MAX,
        ensures
            *final(self) == (BlockStats { gas_used: (old(self).gas_used + gas) as u64, ..*old(self) }),
    {
        self.gas_used = self.gas_used + gas;
    }

    pub fn record_storage_read(&mut self)
        requires
            old(self).storage_read_count < u64::MAX,
        ensures
            *final(self) == (BlockStats { storage_read_count: (old(self).storage_read_count + 1) as u64, ..*old(self) }),
    {
        self.storage_read_count = self.storage_read_count + 1;
    }

    pub fn record_storage_write(&mut self)
        requires
            old(self).storage_write_count < u64::MAX,
        ensures
            *final(self) == (BlockStats {
                storage_write_count: (old(self).storage_write_count + 1) as u64,
                ..*old(self)
            }),
    {
        self.storage_write_count = self.storage_write_count + 1;
    }

    pub fn record_event(&mut self)
        requires
            old(self).event_count < u32::MAX,
        ensures
            *final(self) == (BlockStats { event_count: (old(self).event_count + 1) as u32, ..*old(self) }),
    {
        self.event_count = self.event_count + 1;
    }

    pub fn finalize(&mut self, size_bytes: u32)
        ensures
            *final(self) == (BlockStats { size_bytes, ..*old(self) }),
    {
        self.size_bytes = size_bytes;
    }
}

#[derive(Clone, Copy, Debug)]
pub struct BlockMetadata {
    pub hash: Hash32,
    pub number: u64,
    pub parent_hash: Hash32,
    pub state_root: Hash32,
    pub transaction_count: u32,
    pub gas_used: u64,
    pub timestamp: u64,
    pub validator_set_id: u64,
}

/// The gas of all receipts.
pub open spec fn total_gas(rs: Seq<Receipt>) -> int
    decreases rs.len(),
{
    if rs.len() == 0 {
        0
    } else {
        total_gas(rs.drop_last()) + rs.last().gas_used
    }
}

proof fn lemma_total_gas_prefix(rs: Seq<Receipt>, i: int)
    requires
        0 <= i <= rs.len(),
    ensures
        0 <= total_gas(rs.take(i)) <= total_gas(rs),
    decreases rs.len() - i,
{
    if i < rs.len() {
        lemma_total_gas_prefix(rs, i + 1);
        assert(rs.take(i + 1).drop_last() =~= rs.take(i));
    } else {
        assert(rs.take(i) =~= rs);
    }
    lemma_total_gas_nonneg(rs.take(i));
}

proof fn lemma_total_gas_nonneg(rs: Seq<Receipt>)
    ensures
        total_gas(rs) >= 0,
    decreases rs.len(),
{
    if rs.len() > 0 {
        lemma_total_gas_nonneg(rs.drop_last());
    }
}

impl BlockMetadata {
    /// The metadata of a sealed block; its gas is that of all receipts.
    pub fn from_block(block: &SealedBlock) -> (r: Self)
        requires
            total_gas(block.receipts@) <= u64::MAX,
        ensures
            r.hash.0@ == sha256_spec(header_encoding(block.header)),
            r.number == block.header.number && r.parent_hash == block.header.parent_hash,
            r.state_root == block.header.state_root,
            r.transaction_count == block.transactions@.len() as u32,
            r.gas_used == total_gas(block.receipts@),
            r.timestamp == block.header.timestamp && r.validator_set_id == block.header.validator_set_id,
    {
        let mut gas: u64 = 0;
        let mut i: usize = 0;
        while i < block.receipts.len()
            invariant
                i <= block.receipts@.len(),
                total_gas(block.receipts@) <= u64::MAX,
                gas == total_gas(block.receipts@.take(i as int)),
            decreases block.receipts@.len() - i,
        {
            proof {
                assert(block.receipts@.take(i + 1).drop_last() =~= block.receipts@.take(i as int));
                lemma_total_gas_prefix(block.receipts@, i + 1);
            }
            gas = gas + block.receipts[i].gas_used;
            i = i + 1;
        }
        assert(block.receipts@.take(i as int) =~= block.receipts@);
        BlockMetadata {
            hash: block.header.hash(),
            number: block.header.number,
            parent_hash: block.header.parent_hash,
            state_root: block.header.state_root,
            transaction_count: block.transactions.len() as u32,
            gas_used: gas,
            timestamp: block.header.timestamp,
            validator_set_id: block.header.validator_set_id,
        }
    }
}

/// When to produce a block.
pub trait BlockBuildingStrategy {
    /// The decision the strategy makes.
    spec fn decides(&self, current_timestamp: u64, tx_pool_size: usize) -> bool;

    fn should_build_block(&self, current_timestamp: u64, tx_pool_size: usize) -> (r: bool)
        ensures
            r == self.decides(current_timestamp, tx_pool_size),
    ;
}

/// Produce a block every time, even an empty one.
#[derive(Clone, Copy, Debug, Default)]
pub struct EmptyBlockStrategy;

impl BlockBuildingStrategy for EmptyBlockStrategy {
    open spec fn decides(&self, current_timestamp: u64, tx_pool_size: usize) -> bool {
        true
    }

    fn should_build_block(&self, current_timestamp: u64, tx_pool_size: usize) -> (r: bool) {
        true
    }
}

/// Produce a block once the target interval has passed since the last one
/// (and always before the first).
#[derive(Clone, Copy, Debug, Default)]
pub struct TimedBlockStrategy {
    pub target_interval_ms: u64,
    pub last_block_timestamp: u64,
}

impl TimedBlockStrategy {
    pub fn new(interval_ms: u64) -> (r: Self)
        ensures
            r.target_interval_ms == interval_ms && r.last_block_timestamp == 0,
    {
        TimedBlockStrategy { target_interval_ms: interval_ms, last_block_timestamp: 0 }
    }
}

impl BlockBuildingStrategy for TimedBlockStrategy {
    open spec fn decides(&self, current_timestamp: u64, tx_pool_size: usize) -> bool {
        self.last_block_timestamp == 0 || current_timestamp.saturating_sub(self.last_block_timestamp)
            >= self.target_interval_ms
    }

    fn should_build_block(&self, current_timestamp: u64, tx_pool_size: usize) -> (r: bool) {
        if self.last_block_timestamp == 0 {
            return true;
        }
        current_timestamp.saturating_sub(self.last_block_timestamp) >= self.target_interval_ms
    }
}

} // verus!
