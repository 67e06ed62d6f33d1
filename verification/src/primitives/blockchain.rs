//! Chain management records: chain configuration and forks, stored blocks
//! by hash and number, fork choice, import results and errors, sync state,
//! block requests and responses, and the interfaces of a chain.

use vstd::prelude::*;
use crate::bytes::{le_bytes, push_all, push_le};
use crate::digest::{sha256, sha256_spec};
use crate::kernel::{Address, Hash32, empty_hash32};
use crate::primitives::runtime::{Header, header_encoding};
use crate::table::{Table, TableKey};

verus! {

#[derive(Clone, Debug)]
pub struct ChainConfig {
    pub chain_id: u32,
    pub chain_name: String,
    pub chain_type: ChainType,
    pub genesis_hash: Hash32,
    pub fork_config: ForkConfig,
}

#[derive(Clone, Copy, Debug, PartialEq, Eq, Structural)]
pub enum ChainType {
    Development,
    Local,
    Testnet,
    Mainnet,
}

impl Default for ChainType {
    fn default() -> (r: Self)
        ensures
            r == ChainType::Development,
    {
        ChainType::Development
    }
}

impl Default for ChainConfig {
    fn default() -> (r: Self)
        ensures
            r.chain_id == 0 && r.chain_name@ == "tetcore-dev"@,
            r.chain_type == ChainType::Development && r.genesis_hash == empty_hash32(),
            r.fork_config.fork_after_block is None && r.fork_config.fork_migration is None,
            r.fork_config.known_forks@.len() == 0,
    {
        proof {
            reveal_strlit("tetcore-dev");
        }
        ChainConfig {
            chain_id: 0,
            chain_name: "tetcore-dev".to_string(),
            chain_type: ChainType::Development,
            genesis_hash: Hash32::empty(),
            fork_config: ForkConfig::default(),
        }
    }
}

#[derive(Clone, Debug)]
pub struct ForkConfig {
    pub fork_after_block: Option<u64>,
    pub fork_migration: Option<ForkMigration>,
    pub known_forks: Vec<Fork>,
}

impl Default for ForkConfig {
    fn default() -> (r: Self)
        ensures
            r.fork_after_block is None && r.fork_migration is None && r.known_forks@.len() == 0,
    {
        ForkConfig { fork_after_block: None, fork_migration: None, known_forks: Vec::new() }
    }
}

#[derive(Clone, Copy, Debug)]
pub struct Fork {
    pub fork_id: Hash32,
    pub block_number: u64,
    pub parent_hash: Hash32,
    pub state_root: Hash32,
}

impl Fork {
    /// A fork whose id digests its block number and parent hash.
    pub fn new(block_number: u64, parent_hash: Hash32, state_root: Hash32) -> (r: Self)
        ensures
            r.fork_id.0@ == sha256_spec(le_bytes(block_number as nat, 8) + parent_hash.0@),
            r.block_number == block_number && r.parent_hash == parent_hash && r.state_root == state_root,
    {
        let mut input: Vec<u8> = Vec::new();
        push_le(&mut input, block_number as u128, 8);
        push_all(&mut input, parent_hash.0.as_slice());
        let fork_id = sha256(input.as_slice());
        Fork { fork_id: Hash32(fork_id), block_number, parent_hash, state_root }
    }
}

#[derive(Clone, Debug)]
pub struct ForkMigration {
    pub from_version: u32,
    pub to_version: u32,
    pub migration_code: Vec<u8>,
}

#[derive(Clone, Debug)]
pub struct ChainBlock {
    pub header: Header,
    pub body: Vec<Vec<u8>>,
    pub receipts: Vec<Vec<u8>>,
}

impl ChainBlock {
    pub fn hash(&self) -> (r: Hash32)
        ensures
            r.0@ == sha256_spec(header_encoding(self.header)),
    {
        self.header.hash()
    }

    pub fn number(&self) -> (r: u64)
        ensures
            r == self.header.number,
    {
        self.header.number
    }

    pub fn parent_hash(&self) -> (r: Hash32)
        ensures
            r == self.header.parent_hash,
    {
        self.header.parent_hash
    }
}

/// Stored blocks by hash, the hash of the block stored for each number, and
/// the best and genesis blocks.
#[derive(Clone, Debug)]
pub struct ChainStorage {
    pub blocks: Table<Hash32, ChainBlock>,
    pub block_by_number: Table<u64, Hash32>,
    pub best_hash: Hash32,
    pub best_number: u64,
    pub genesis_hash: Hash32,
}

impl ChainStorage {
    pub open spec fn wf(&self) -> bool {
        self.blocks.wf() && self.block_by_number.wf()
    }

    pub fn new() -> (r: Self)
        ensures
            r.wf(),
            r.blocks@ == Map::<Seq<u8>, ChainBlock>::empty(),
            r.block_by_number@ == Map::<u64, Hash32>::empty(),
            r.best_hash == empty_hash32() && r.best_number == 0 && r.genesis_hash == empty_hash32(),
    {
        ChainStorage {
            blocks: Table::new(),
            block_by_number: Table::new(),
            best_hash: Hash32::empty(),
            best_number: 0,
            genesis_hash: Hash32::empty(),
        }
    }

    /// Stores `block` under its hash, and its hash under its number.
    pub fn insert(&mut self, block: ChainBlock)
        requires
            old(self).wf(),
        ensures
            final(self).wf(),
            ({
                let h = sha256_spec(header_encoding(block.header));
                &&& final(self).blocks@ == old(self).blocks@.insert(h, block)
                &&& final(self).block_by_number@.dom() == old(self).block_by_number@.dom().insert(block.header.number)
                &&& final(self).block_by_number@[block.header.number].0@ == h
                &&& forall|n: u64| n != block.header.number && #[trigger] old(self).block_by_number@.dom().contains(n)
                    ==> final(self).block_by_number@[n] == old(self).block_by_number@[n]
            }),
            final(self).best_hash == old(self).best_hash && final(self).best_number == old(self).best_number,
            final(self).genesis_hash == old(self).genesis_hash,
    {
        let hash = block.hash();
        let number = block.number();
        self.blocks.insert(hash, block);
        self.block_by_number.insert(number, hash);
    }

    pub fn get_block(&self, hash: &Hash32) -> (r: Option<&ChainBlock>)
        requires
            self.wf(),
        ensures
            r is Some <==> self.blocks@.dom().contains(hash.0@),
            r matches Some(b) ==> *b == self.blocks@[hash.0@],
    {
        self.blocks.get(hash)
    }

    /// The block stored under the hash recorded for `number`, if both are
    /// there.
    pub fn get_block_by_number(&self, number: u64) -> (r: Option<&ChainBlock>)
        requires
            self.wf(),
        ensures
            r is Some <==> self.block_by_number@.dom().contains(number) && self.blocks@.dom().contains(
                self.block_by_number@[number].0@,
            ),
            r matches Some(b) ==> *b == self.blocks@[self.block_by_number@[number].0@],
    {
        match self.block_by_number.get(&number) {
            Some(h) => self.blocks.get(h),
            None => None,
        }
    }

    pub fn set_best(&mut self, hash: Hash32, number: u64)
        ensures
            *final(self) == (ChainStorage { best_hash: hash, best_number: number, ..*old(self) }),
    {
        self.best_hash = hash;
        self.best_number = number;
    }
}

impl Default for ChainStorage {
    fn default() -> (r: Self)
        ensures
            r.wf(),
            r.blocks@ == Map::<Seq<u8>, ChainBlock>::empty(),
            r.block_by_number@ == Map::<u64, Hash32>::empty(),
            r.best_hash == empty_hash32() && r.best_number == 0 && r.genesis_hash == empty_hash32(),
    {
        ChainStorage::new()
    }
}

#[derive(Clone, Debug)]
pub struct ForkChoice {
    pub latest_finalized_hash: Hash32,
    pub latest_finalized_number: u64,
    pub best_chain: Vec<Hash32>,
}

impl ForkChoice {
    pub fn new() -> (r: Self)
        ensures
            r.latest_finalized_hash == empty_hash32() && r.latest_finalized_number == 0,
            r.best_chain@.len() == 0,
    {
        ForkChoice { latest_finalized_hash: Hash32::empty(), latest_finalized_number: 0, best_chain: Vec::new() }
    }

    pub fn update_finalized(&mut self, hash: Hash32, number: u64)
        ensures
            final(self).latest_finalized_hash == hash && final(self).latest_finalized_number == number,
            final(self).best_chain == old(self).best_chain,
    {
        self.latest_finalized_hash = hash;
        self.latest_finalized_number = number;
    }
}

impl Default for ForkChoice {
    fn default() -> (r: Self)
        ensures
            r.latest_finalized_hash == empty_hash32() && r.latest_finalized_number == 0,
            r.best_chain@.len() == 0,
    {
        ForkChoice::new()
    }
}

#[derive(Clone, Copy, Debug)]
pub struct ImportResult {
    pub hash: Hash32,
    pub number: u64,
    pub is_new_best: bool,
    pub is_finalized: bool,
}

#[derive(Clone, Debug)]
pub struct ImportError {
    pub kind: ImportErrorKind,
    pub message: String,
}

#[derive(Clone, Copy, Debug, PartialEq, Eq, Structural)]
pub enum ImportErrorKind {
    UnknownBlock,
    MissingParent,
    BlockInFuture,
    InvalidStateRoot,
    InvalidTransactionsRoot,
    InvalidReceiptsRoot,
    InvalidSignature,
    BadNonce,
    InsufficientBalance,
    GasLimitExceeded,
    FullBlock,
    ForkChoiceChanged,
}

#[derive(Clone, Debug)]
pub struct BlockchainImportContext {
    pub header: Header,
    pub just_header: bool,
    pub allow_missing_state: bool,
    pub justification: Option<BlockJustification>,
}

#[derive(Clone, Debug)]
pub struct BlockJustification {
    pub round: u64,
    pub votes: Vec<(Address, Vec<u8>)>,
}

#[derive(Clone, Debug)]
pub struct FinalityProof {
    pub block_hash: Hash32,
    pub block_number: u64,
    pub justifications: Vec<Vec<u8>>,
    pub ancestor_hash: Hash32,
    pub ancestor_number: u64,
}

#[derive(Clone, Copy, Debug, PartialEq, Eq, Structural)]
pub struct SyncState {
    pub starting_block: u64,
    pub current_block: u64,
    pub highest_block: Option<u64>,
    pub sync_type: SyncType,
}

#[derive(Clone, Copy, Debug, PartialEq, Eq, Structural)]
pub enum SyncType {
    Full,
    Light,
    Warp,
}

impl Default for SyncState {
    fn default() -> (r: Self)
        ensures
            r == (SyncState { starting_block: 0, current_block: 0, highest_block: None, sync_type: SyncType::Full }),
    {
        SyncState { starting_block: 0, current_block: 0, highest_block: None, sync_type: SyncType::Full }
    }
}

#[derive(Clone, Copy, Debug)]
pub struct BlockStatus {
    pub hash: Option<Hash32>,
    pub status: BlockAvailability,
}

#[derive(Clone, Copy, Debug, PartialEq, Eq, Structural)]
pub enum BlockAvailability {
    Unknown,
    Pending,
    InChain,
    Queued,
}

#[derive(Clone, Copy, Debug)]
pub struct BlockRequest {
    pub id: Hash32,
    pub fields: BlockFields,
    pub from: BlockRequestStart,
    pub to: Option<Hash32>,
    pub direction: BlockRequestDirection,
    pub max: u32,
}

#[derive(Clone, Copy, Debug)]
pub enum BlockRequestStart {
    Hash(Hash32),
    Number(u64),
}

#[derive(Clone, Copy, Debug, PartialEq, Eq, Structural)]
pub enum BlockRequestDirection {
    Ascending,
    Descending,
}

/// Which parts of blocks a request asks for.
#[derive(Clone, Copy, Debug, PartialEq, Eq, Structural)]
pub struct BlockFields {
    pub header: bool,
    pub body: bool,
    pub receipt: bool,
    pub message_queue: bool,
    pub just_ification: bool,
}

impl Default for BlockFields {
    fn default() -> (r: Self)
        ensures
            r == (BlockFields { header: true, body: true, receipt: true, message_queue: false, just_ification: true }),
    {
        BlockFields { header: true, body: true, receipt: true, message_queue: false, just_ification: true }
    }
}

#[derive(Clone, Debug)]
pub struct BlockResponse {
    pub id: Hash32,
    pub blocks: Vec<BlockResponseItem>,
}

#[derive(Clone, Debug)]
pub struct BlockResponseItem {
    pub hash: Hash32,
    pub header: Option<Header>,
    pub body: Option<Vec<Vec<u8>>>,
    pub receipt: Option<Vec<Vec<u8>>>,
    pub message_queue: Option<Vec<u8>>,
    pub just_ification: Option<Vec<u8>>,
}

/// A chain of blocks with fork choice and finality.
pub trait Blockchain {
    fn chain_config(&self) -> &ChainConfig;

    fn storage(&self) -> &ChainStorage;

    fn fork_choice(&self) -> &ForkChoice;

    fn best_block(&self) -> Option<(Hash32, u64)>;

    fn finalized_block(&self) -> Option<(Hash32, u64)>;

    fn get_block(&self, hash: &Hash32) -> Option<&ChainBlock>;

    fn get_block_by_number(&self, number: u64) -> Option<&ChainBlock>;

    fn has_block(&self, hash: &Hash32) -> bool;

    fn is_descendant_of(&self, descendant: &Hash32, ancestor: &Hash32) -> bool;

    fn import_block(&mut self, block: ChainBlock) -> Result<ImportResult, ImportError>;

    fn finalize_block(&mut self, hash: Hash32) -> Result<(), ImportError>;
}

/// Header lookups by hash and number.
pub trait HeaderMetadata {
    fn header(&self, hash: &Hash32) -> Option<Header>;

    fn number(&self, hash: &Hash32) -> Option<u64>;

    fn hash(&self, number: u64) -> Option<Hash32>;

    fn parent_hash(&self, hash: &Hash32) -> Option<Hash32>;
}

/// A contiguous run of blocks.
pub trait ChainSegment {
    fn segment(&self, start: u64, end: u64) -> Option<Vec<ChainBlock>>;

    fn contains(&self, hash: &Hash32) -> bool;
}

#[derive(Clone, Debug)]
pub struct ChainProperties {
    pub ss58_format: u8,
    pub token_symbol: String,
    pub token_decimals: u8,
    pub chain_type: ChainType,
}

impl ChainProperties {
    pub fn new() -> (r: Self)
        ensures
            r.ss58_format == 42 && r.token_symbol@ == "TNT"@ && r.token_decimals == 18,
            r.chain_type == ChainType::Development,
    {
        proof {
            reveal_strlit("TNT");
        }
        ChainProperties {
            ss58_format: 42,
            token_symbol: "TNT".to_string(),
            token_decimals: 18,
            chain_type: ChainType::Development,
        }
    }
}

impl Default for ChainProperties {
    /// No format, no symbol, no decimals, a development chain.
    fn default() -> (r: Self)
        ensures
            r.ss58_format == 0 && r.token_symbol@.len() == 0 && r.token_decimals == 0,
            r.chain_type == ChainType::Development,
    {
        ChainProperties { ss58_format: 0, token_symbol: String::new(), token_decimals: 0, chain_type: ChainType::Development }
    }
}

} // verus!
