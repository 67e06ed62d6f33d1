//! Core system types: chain ids, versions, block numbers, nonces, system
//! errors and events, runtime constants and event filters.

use vstd::prelude::*;
use crate::bytes::bytes32_eq;
use crate::kernel::{Address, Hash32};

verus! {

#[derive(Clone, Copy, Debug, Default, PartialEq, Eq, Structural)]
pub struct ChainId(pub u32);

impl ChainId {
    pub fn new(id: u32) -> (r: Self)
        ensures
            r.0 == id,
    {
        ChainId(id)
    }

    pub fn as_u32(self) -> (r: u32)
        ensures
            r == self.0,
    {
        self.0
    }

    pub fn is_mainnet(self) -> (r: bool)
        ensures
            r == (self.0 == 1),
    {
        self.0 == 1
    }

    pub fn is_testnet(self) -> (r: bool)
        ensures
            r == (1 < self.0 < 1000),
    {
        self.0 > 1 && self.0 < 1000
    }

    pub fn is_development(self) -> (r: bool)
        ensures
            r == (self.0 == 0),
    {
        self.0 == 0
    }
}

/// At most one of mainnet, testnet and development holds of a chain id.
pub proof fn lemma_chain_kinds_exclusive(id: u32)
    ensures
        !(id == 1 && 1 < id < 1000),
        !(id == 0 && 1 < id < 1000),
        !(id == 0 && id == 1),
{
}

/// A version packed as major (16 bits), minor and patch (8 bits each).
#[derive(Clone, Copy, Debug, PartialEq, Eq, Structural)]
pub struct SystemVersion(pub u32);

/// The packed form of a version.
pub open spec fn packed_version(major: u16, minor: u8, patch: u8) -> u32 {
    ((major as u32) << 16u32) | ((minor as u32) << 8u32) | (patch as u32)
}

impl SystemVersion {
    pub fn new(major: u16, minor: u8, patch: u8) -> (r: Self)
        ensures
            r.0 == packed_version(major, minor, patch),
    {
        SystemVersion(((major as u32) << 16u32) | ((minor as u32) << 8u32) | (patch as u32))
    }

    pub fn major(self) -> (r: u16)
        ensures
            r == (self.0 >> 16u32) as u16,
    {
        (self.0 >> 16u32) as u16
    }

    pub fn minor(self) -> (r: u8)
        ensures
            r == ((self.0 >> 8u32) & 0xffu32) as u8,
    {
        ((self.0 >> 8u32) & 0xffu32) as u8
    }

    pub fn patch(self) -> (r: u8)
        ensures
            r == (self.0 & 0xffu32) as u8,
    {
        (self.0 & 0xffu32) as u8
    }

    pub fn as_u32(self) -> (r: u32)
        ensures
            r == self.0,
    {
        self.0
    }
}

/// A packed version gives back its major, minor and patch numbers.
pub proof fn lemma_version_roundtrip(major: u16, minor: u8, patch: u8)
    ensures
        (packed_version(major, minor, patch) >> 16u32) as u16 == major,
        ((packed_version(major, minor, patch) >> 8u32) & 0xffu32) as u8 == minor,
        (packed_version(major, minor, patch) & 0xffu32) as u8 == patch,
{
    let a = major as u32;
    let b = minor as u32;
    let c = patch as u32;
    assert(a < 0x10000u32 && b < 0x100u32 && c < 0x100u32);
    assert((((a << 16u32) | (b << 8u32) | c) >> 16u32) == a) by (bit_vector)
        requires
            a < 0x10000u32,
            b < 0x100u32,
            c < 0x100u32,
    ;
    assert(((((a << 16u32) | (b << 8u32) | c) >> 8u32) & 0xffu32) == b) by (bit_vector)
        requires
            a < 0x10000u32,
            b < 0x100u32,
            c < 0x100u32,
    ;
    assert((((a << 16u32) | (b << 8u32) | c) & 0xffu32) == c) by (bit_vector)
        requires
            a < 0x10000u32,
            b < 0x100u32,
            c < 0x100u32,
    ;
}

impl Default for SystemVersion {
    /// Version 1.0.0.
    fn default() -> (r: Self)
        ensures
            r.0 == 0x10000,
    {
        SystemVersion(0x10000)
    }
}

#[derive(Clone, Copy, Debug, Default, PartialEq, Eq, Structural)]
pub struct BlockNumber(pub u64);

impl BlockNumber {
    pub fn new(n: u64) -> (r: Self)
        ensures
            r.0 == n,
    {
        BlockNumber(n)
    }

    pub fn as_u64(self) -> (r: u64)
        ensures
            r == self.0,
    {
        self.0
    }

    pub fn saturating_add(self, other: u64) -> (r: Self)
        ensures
            r.0 == self.0.saturating_add(other),
    {
        BlockNumber(self.0.saturating_add(other))
    }

    pub fn saturating_sub(self, other: u64) -> (r: Self)
        ensures
            r.0 == self.0.saturating_sub(other),
    {
        BlockNumber(self.0.saturating_sub(other))
    }
}

impl From<u64> for BlockNumber {
    fn from(n: u64) -> (r: Self) {
        BlockNumber(n)
    }
}

impl vstd::std_specs::convert::FromSpecImpl<u64> for BlockNumber {
    open spec fn obeys_from_spec() -> bool {
        true
    }

    open spec fn from_spec(n: u64) -> Self {
        BlockNumber(n)
    }
}

#[derive(Clone, Copy, Debug, Default, PartialEq, Eq, Structural)]
pub struct Nonce(pub u64);

impl Nonce {
    pub fn new(n: u64) -> (r: Self)
        ensures
            r.0 == n,
    {
        Nonce(n)
    }

    /// The next nonce.
    pub fn increment(self) -> (r: Self)
        requires
            self.0 < u64::MAX,
        ensures
            r.0 == self.0 + 1,
    {
        Nonce(self.0 + 1)
    }

    pub fn as_u64(self) -> (r: u64)
        ensures
            r == self.0,
    {
        self.0
    }
}

impl From<u64> for Nonce {
    fn from(n: u64) -> (r: Self) {
        Nonce(n)
    }
}

impl vstd::std_specs::convert::FromSpecImpl<u64> for Nonce {
    open spec fn obeys_from_spec() -> bool {
        true
    }

    open spec fn from_spec(n: u64) -> Self {
        Nonce(n)
    }
}

#[derive(Clone, Debug)]
pub struct SystemError {
    pub kind: SystemErrorKind,
    pub message: String,
}

#[derive(Clone, Copy, Debug, PartialEq, Eq, Structural)]
pub enum SystemErrorKind {
    Unknown,
    InvalidTransaction,
    InvalidSignature,
    InsufficientFunds,
    InsufficientGas,
    NonceTooLow,
    NonceTooHigh,
    ChainIdMismatch,
    InvalidBlock,
    InvalidState,
    StorageOverflow,
    StorageUnderflow,
    ModuleNotFound,
    MethodNotFound,
    CallFailed,
    ContractNotFound,
    ContractCodeNotFound,
    ContractExecutionFailed,
    InvalidCall,
    InvalidStorageKey,
    InvalidArgument,
    ArithmeticOverflow,
    ArithmeticUnderflow,
    DivisionByZero,
    BadOrigin,
    TokenTransferFailed,
    VaultNotFound,
    VaultInsufficientStake,
    ModelNotFound,
    ModelNotActive,
    PromptNotFound,
    PromptExpired,
    ReceiptAlreadySubmitted,
    GovernanceProposalNotFound,
    GovernanceProposalExpired,
    GovernanceVotingPeriod,
    ValidatorNotFound,
    ValidatorAlreadyExists,
    ValidatorInsufficientStake,
    Slashed,
    Jailed,
}

/// The numeric code of each kind of system error.
pub open spec fn error_code(kind: SystemErrorKind) -> u32 {
    match kind {
        SystemErrorKind::Unknown => 0,
        SystemErrorKind::InvalidTransaction => 1,
        SystemErrorKind::InvalidSignature => 2,
        SystemErrorKind::InsufficientFunds => 3,
        SystemErrorKind::InsufficientGas => 4,
        SystemErrorKind::NonceTooLow => 5,
        SystemErrorKind::NonceTooHigh => 6,
        SystemErrorKind::ChainIdMismatch => 7,
        SystemErrorKind::InvalidBlock => 10,
        SystemErrorKind::InvalidState => 11,
        SystemErrorKind::StorageOverflow => 12,
        SystemErrorKind::StorageUnderflow => 13,
        SystemErrorKind::ModuleNotFound => 20,
        SystemErrorKind::MethodNotFound => 21,
        SystemErrorKind::CallFailed => 22,
        SystemErrorKind::ContractNotFound => 30,
        SystemErrorKind::ContractCodeNotFound => 31,
        SystemErrorKind::ContractExecutionFailed => 32,
        SystemErrorKind::InvalidCall => 33,
        SystemErrorKind::InvalidStorageKey => 34,
        SystemErrorKind::InvalidArgument => 35,
        SystemErrorKind::ArithmeticOverflow => 40,
        SystemErrorKind::ArithmeticUnderflow => 41,
        SystemErrorKind::DivisionByZero => 42,
        SystemErrorKind::BadOrigin => 50,
        SystemErrorKind::TokenTransferFailed => 60,
        SystemErrorKind::VaultNotFound => 70,
        SystemErrorKind::VaultInsufficientStake => 71,
        SystemErrorKind::ModelNotFound => 80,
        SystemErrorKind::ModelNotActive => 81,
        SystemErrorKind::PromptNotFound => 90,
        SystemErrorKind::PromptExpired => 91,
        SystemErrorKind::ReceiptAlreadySubmitted => 92,
        SystemErrorKind::GovernanceProposalNotFound => 100,
        SystemErrorKind::GovernanceProposalExpired => 101,
        SystemErrorKind::GovernanceVotingPeriod => 102,
        SystemErrorKind::ValidatorNotFound => 110,
        SystemErrorKind::ValidatorAlreadyExists => 111,
        SystemErrorKind::ValidatorInsufficientStake => 112,
        SystemErrorKind::Slashed => 120,
        SystemErrorKind::Jailed => 121,
    }
}

/// Different kinds of error have different codes.
pub proof fn lemma_error_codes_distinct(a: SystemErrorKind, b: SystemErrorKind)
    ensures
        error_code(a) == error_code(b) ==> a == b,
{
}

impl SystemError {
    pub fn new(kind: SystemErrorKind) -> (r: Self)
        ensures
            r.kind == kind,
            r.message@.len() == 0,
    {
        SystemError { kind, message: String::new() }
    }

    pub fn with_message(self, message: &str) -> (r: Self)
        ensures
            r.kind == self.kind,
            r.message@ == message@,
    {
        let mut s = self;
        s.message = message.to_owned();
        s
    }

    pub fn code(&self) -> (r: u32)
        ensures
            r == error_code(self.kind),
    {
        match self.kind {
            SystemErrorKind::Unknown => 0,
            SystemErrorKind::InvalidTransaction => 1,
            SystemErrorKind::InvalidSignature => 2,
            SystemErrorKind::InsufficientFunds => 3,
            SystemErrorKind::InsufficientGas => 4,
            SystemErrorKind::NonceTooLow => 5,
            SystemErrorKind::NonceTooHigh => 6,
            SystemErrorKind::ChainIdMismatch => 7,
            SystemErrorKind::InvalidBlock => 10,
            SystemErrorKind::InvalidState => 11,
            SystemErrorKind::StorageOverflow => 12,
            SystemErrorKind::StorageUnderflow => 13,
            SystemErrorKind::ModuleNotFound => 20,
            SystemErrorKind::MethodNotFound => 21,
            SystemErrorKind::CallFailed => 22,
            SystemErrorKind::ContractNotFound => 30,
            SystemErrorKind::ContractCodeNotFound => 31,
            SystemErrorKind::ContractExecutionFailed => 32,
            SystemErrorKind::InvalidCall => 33,
            SystemErrorKind::InvalidStorageKey => 34,
            SystemErrorKind::InvalidArgument => 35,
            SystemErrorKind::ArithmeticOverflow => 40,
            SystemErrorKind::ArithmeticUnderflow => 41,
            SystemErrorKind::DivisionByZero => 42,
            SystemErrorKind::BadOrigin => 50,
            SystemErrorKind::TokenTransferFailed => 60,
            SystemErrorKind::VaultNotFound => 70,
            SystemErrorKind::VaultInsufficientStake => 71,
            SystemErrorKind::ModelNotFound => 80,
            SystemErrorKind::ModelNotActive => 81,
            SystemErrorKind::PromptNotFound => 90,
            SystemErrorKind::PromptExpired => 91,
            SystemErrorKind::ReceiptAlreadySubmitted => 92,
            SystemErrorKind::GovernanceProposalNotFound => 100,
            SystemErrorKind::GovernanceProposalExpired => 101,
            SystemErrorKind::GovernanceVotingPeriod => 102,
            SystemErrorKind::ValidatorNotFound => 110,
            SystemErrorKind::ValidatorAlreadyExists => 111,
            SystemErrorKind::ValidatorInsufficientStake => 112,
            SystemErrorKind::Slashed => 120,
            SystemErrorKind::Jailed => 121,
        }
    }
}

#[derive(Clone, Copy, Debug)]
pub struct EventId(pub [u8; 32]);

impl EventId {
    pub fn from_bytes(bytes: [u8; 32]) -> (r: Self)
        ensures
            r.0 == bytes,
    {
        EventId(bytes)
    }

    pub fn as_bytes(&self) -> (r: &[u8; 32])
        ensures
            *r == self.0,
    {
        &self.0
    }
}

#[derive(Clone, Debug)]
pub struct SystemEvent {
    pub event_id: EventId,
    pub phase: EventPhase,
    pub module: String,
    pub event_type: SystemEventType,
    pub topics: Vec<Hash32>,
    pub data: Vec<u8>,
    pub block_number: u64,
    pub transaction_hash: Option<Hash32>,
}

#[derive(Clone, Copy, Debug, PartialEq, Eq, Structural)]
pub enum EventPhase {
    Initialization,
    ApplyExtrinsic(u32),
    Finalization,
}

#[derive(Clone, Debug)]
pub enum SystemEventType {
    ExtrinsicSuccess,
    ExtrinsicFailed { error: SystemError },
    CodeUpdated,
    RuntimeUpdated,
    NewAccount { account: Address },
    KilledAccount { account: Address },
    Transfer { from: Address, to: Address, amount: u128 },
    Deposit { account: Address, amount: u128 },
    Withdrawal { account: Address, amount: u128 },
    BalanceSet { account: Address, free: u128, reserved: u128 },
    EventEmitted { module: String, event: String },
    GasConsumed { consumer: Address, gas: u64 },
    GasRefunded { consumer: Address, gas: u64 },
    StorageChange { key: Vec<u8>, old_value: Option<Vec<u8>>, new_value: Option<Vec<u8>> },
    InvalidTransaction { reason: SystemErrorKind },
}

#[derive(Clone, Debug)]
pub struct RuntimeVersion {
    pub spec_name: String,
    pub impl_name: String,
    pub authoring_version: u32,
    pub spec_version: u32,
    pub impl_version: u32,
    pub apis: Vec<(String, u32)>,
}

impl Default for RuntimeVersion {
    fn default() -> (r: Self)
        ensures
            r.spec_name@ == "tetcore"@ && r.impl_name@ == "tetcore"@,
            r.authoring_version == 1 && r.spec_version == 1 && r.impl_version == 1,
            r.apis@.len() == 0,
    {
        proof {
            reveal_strlit("tetcore");
        }
        RuntimeVersion {
            spec_name: "tetcore".to_string(),
            impl_name: "tetcore".to_string(),
            authoring_version: 1,
            spec_version: 1,
            impl_version: 1,
            apis: Vec::new(),
        }
    }
}

impl RuntimeVersion {
    pub fn new(spec_name: String, spec_version: u32) -> (r: Self)
        ensures
            r.spec_name == spec_name && r.impl_name@ == "tetcore"@,
            r.authoring_version == 1 && r.spec_version == spec_version && r.impl_version == 1,
            r.apis@.len() == 0,
    {
        proof {
            reveal_strlit("tetcore");
        }
        RuntimeVersion {
            spec_name,
            impl_name: "tetcore".to_string(),
            authoring_version: 1,
            spec_version,
            impl_version: 1,
            apis: Vec::new(),
        }
    }
}

#[derive(Clone, Debug)]
pub struct SystemProperties {
    pub ss58_format: u8,
    pub token_symbol: String,
    pub token_decimals: u8,
    pub chain_type: CoreChainType,
}

#[derive(Clone, Copy, Debug, PartialEq, Eq, Structural)]
pub enum CoreChainType {
    Development,
    Local,
    Testnet,
    Mainnet,
}

impl Default for CoreChainType {
    fn default() -> (r: Self)
        ensures
            r == CoreChainType::Development,
    {
        CoreChainType::Development
    }
}

impl Default for SystemProperties {
    fn default() -> (r: Self)
        ensures
            r.ss58_format == 42 && r.token_symbol@ == "TNT"@ && r.token_decimals == 18,
            r.chain_type == CoreChainType::Development,
    {
        proof {
            reveal_strlit("TNT");
        }
        SystemProperties {
            ss58_format: 42,
            token_symbol: "TNT".to_string(),
            token_decimals: 18,
            chain_type: CoreChainType::Development,
        }
    }
}

#[derive(Clone, Copy, Debug, PartialEq, Eq, Structural)]
pub struct Constants {
    pub max_block_length: u32,
    pub max_transaction_size: u32,
    pub max_call_depth: u32,
    pub max_storage_size: u64,
    pub block_gas_limit: u64,
    pub transaction_gas_limit: u64,
    pub storage_gas_per_byte: u64,
    pub evm_gas_per_nanosecond: u64,
    pub min_balance: u128,
    pub max_authorities: u32,
    pub min_validator_stake: u128,
    pub epochs_per_era: u64,
    pub blocks_per_epoch: u64,
}

pub open spec fn default_constants() -> Constants {
    Constants {
        max_block_length: 10_485_760,
        max_transaction_size: 2_097_152,
        max_call_depth: 1024,
        max_storage_size: 1_073_741_824,
        block_gas_limit: 100_000_000,
        transaction_gas_limit: 50_000_000,
        storage_gas_per_byte: 1,
        evm_gas_per_nanosecond: 1,
        min_balance: 1_000_000_000_000_000_000,
        max_authorities: 1000,
        min_validator_stake: 100_000_000_000_000_000_000_000,
        epochs_per_era: 1,
        blocks_per_epoch: 2400,
    }
}

impl Default for Constants {
    fn default() -> (r: Self)
        ensures
            r == default_constants(),
    {
        Constants {
            max_block_length: 10_485_760,
            max_transaction_size: 2_097_152,
            max_call_depth: 1024,
            max_storage_size: 1_073_741_824,
            block_gas_limit: 100_000_000,
            transaction_gas_limit: 50_000_000,
            storage_gas_per_byte: 1,
            evm_gas_per_nanosecond: 1,
            min_balance: 1_000_000_000_000_000_000,
            max_authorities: 1000,
            min_validator_stake: 100_000_000_000_000_000_000_000,
            epochs_per_era: 1,
            blocks_per_epoch: 2400,
        }
    }
}

#[derive(Clone, Debug)]
pub struct Upgrades {
    pub schedule_version: u32,
    pub active_version: RuntimeVersion,
}

#[derive(Clone, Debug)]
pub struct SystemInfo {
    pub chain_id: ChainId,
    pub version: RuntimeVersion,
    pub properties: SystemProperties,
    pub constants: Constants,
}

impl SystemInfo {
    /// The information of chain `chain_id` with default version,
    /// properties and constants.
    pub fn new(chain_id: ChainId) -> (r: Self)
        ensures
            r.chain_id == chain_id,
            r.version.spec_name@ == "tetcore"@ && r.version.spec_version == 1,
            r.properties.ss58_format == 42 && r.properties.token_decimals == 18,
            r.constants == default_constants(),
    {
        SystemInfo {
            chain_id,
            version: RuntimeVersion::default(),
            properties: SystemProperties::default(),
            constants: Constants::default(),
        }
    }
}

#[derive(Clone, Debug)]
pub struct CoreEventRecord {
    pub phase: EventPhase,
    pub module: String,
    pub event: SystemEventType,
    pub topics: Vec<Hash32>,
}

/// Events recorded in order, until drained.
#[derive(Clone, Debug)]
pub struct EventEmitter {
    pub events: Vec<CoreEventRecord>,
}

impl EventEmitter {
    pub fn new() -> (r: Self)
        ensures
            r.events@.len() == 0,
    {
        EventEmitter { events: Vec::new() }
    }

    /// Records `event` of `module`, in the first extrinsic's phase.
    pub fn emit(&mut self, module: String, event: SystemEventType)
        ensures
            final(self).events@.len() == old(self).events@.len() + 1,
            final(self).events@.drop_last() == old(self).events@,
            final(self).events@.last().phase == EventPhase::ApplyExtrinsic(0),
            final(self).events@.last().module == module,
            final(self).events@.last().event == event,
            final(self).events@.last().topics@.len() == 0,
    {
        self.events.push(CoreEventRecord { phase: EventPhase::ApplyExtrinsic(0), module, event, topics: Vec::new() });
        assert(self.events@.drop_last() =~= old(self).events@);
    }

    /// Hands out the recorded events, leaving none.
    pub fn drain(&mut self) -> (r: Vec<CoreEventRecord>)
        ensures
            r@ == old(self).events@,
            final(self).events@.len() == 0,
    {
        let mut out: Vec<CoreEventRecord> = Vec::new();
        core::mem::swap(&mut out, &mut self.events);
        out
    }
}

impl Default for EventEmitter {
    fn default() -> (r: Self)
        ensures
            r.events@.len() == 0,
    {
        EventEmitter::new()
    }
}

/// A time in milliseconds.
#[derive(Clone, Copy, Debug, PartialEq, Eq, Structural)]
pub struct Timestamp(u64);

impl Timestamp {
    /// The milliseconds.
    pub closed spec fn millis(&self) -> u64 {
        self.0
    }

    /// The current time, which in the deterministic runtime is always 0.
    pub fn now() -> (r: Self)
        ensures
            r.millis() == 0,
    {
        Timestamp(0)
    }

    pub fn from_millis(ms: u64) -> (r: Self)
        ensures
            r.millis() == ms,
    {
        Timestamp(ms)
    }

    pub fn as_millis(self) -> (r: u64)
        ensures
            r == self.millis(),
    {
        self.0
    }

    pub fn as_secs(self) -> (r: u64)
        ensures
            r == self.millis() / 1000,
    {
        self.0 / 1000
    }
}

impl Default for Timestamp {
    fn default() -> (r: Self)
        ensures
            r.millis() == 0,
    {
        Timestamp(0)
    }
}

#[derive(Clone, Debug)]
pub struct EventFilter {
    pub module: Option<String>,
    pub event_type: Option<String>,
    pub from_block: Option<BlockNumber>,
    pub to_block: Option<BlockNumber>,
    pub from_address: Option<Address>,
    pub to_address: Option<Address>,
}

/// A filter that selects nothing in particular.
pub open spec fn open_filter(f: EventFilter) -> bool {
    f.module is None && f.event_type is None && f.from_block is None && f.to_block is None
        && f.from_address is None && f.to_address is None
}

impl Default for EventFilter {
    fn default() -> (r: Self)
        ensures
            open_filter(r),
    {
        EventFilter {
            module: None,
            event_type: None,
            from_block: None,
            to_block: None,
            from_address: None,
            to_address: None,
        }
    }
}

impl EventFilter {
    pub fn new() -> (r: Self)
        ensures
            open_filter(r),
    {
        EventFilter::default()
    }

    pub fn with_module(self, module: String) -> (r: Self)
        ensures
            r == (EventFilter { module: Some(module), ..self }),
    {
        EventFilter { module: Some(module), ..self }
    }

    pub fn with_from_block(self, block: BlockNumber) -> (r: Self)
        ensures
            r == (EventFilter { from_block: Some(block), ..self }),
    {
        EventFilter { from_block: Some(block), ..self }
    }

    pub fn with_to_block(self, block: BlockNumber) -> (r: Self)
        ensures
            r == (EventFilter { to_block: Some(block), ..self }),
    {
        EventFilter { to_block: Some(block), ..self }
    }
}

} // verus!
