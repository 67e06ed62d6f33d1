//! The Tetcore virtual machine: a stack machine with gas metering, contract
//! storage and logs, and the contract module that deploys and calls
//! contracts.

use vstd::prelude::*;
use crate::bytes::{push_all, push_le, le_bytes, le_value, read_u128_le, zeros32};
use crate::digest::{sha256, sha256_spec};
use crate::kernel::{Address, Hash32, slice_to_32, bytes32_from_slice};
use crate::table::{Table, TableKey, bytes_map, copy_bytes_table};
use crate::hexenc::hex_text;

verus! {

pub const MAX_CONTRACT_CODE_SIZE: usize = 65536;

pub const MAX_STORAGE_SIZE: usize = 1048576;

pub const MAX_STACK_SIZE: usize = 1024;

pub const MAX_CALL_DEPTH: usize = 64;

pub const MAX_MEMORY_PAGES: usize = 256;

pub const MEMORY_PAGE_SIZE: usize = 65536;

/// The instructions of the machine.
#[derive(Clone, Copy, Debug, PartialEq, Eq, Structural)]
pub enum Opcode {
    Nop,
    Add,
    Sub,
    Mul,
    Div,
    Mod,
    And,
    Or,
    Xor,
    Not,
    Shl,
    Shr,
    Eq,
    Ne,
    Lt,
    Gt,
    Le,
    Ge,
    LtU,
    GtU,
    Min,
    Max,
    MulDiv,
    AddMod,
    MulMod,
    LoadImm,
    LoadConst,
    Store,
    Load,
    Mov,
    Swap,
    Dup,
    Drop,
    Call,
    CallExt,
    Return,
    DelegateCall,
    Jump,
    JumpI,
    Branch,
    PushStack,
    PopStack,
    Gas,
    GasLimit,
    GasPrice,
    Balance,
    Address,
    Origin,
    Caller,
    CallValue,
    CallDataSize,
    CallDataLoad,
    CallDataCopy,
    CodeSize,
    CodeCopy,
    ExtCodeSize,
    ExtCodeCopy,
    Create,
    Create2,
    CallCode,
    SelfDestruct,
    BlockNumber,
    Timestamp,
    Difficulty,
    Coinbase,
    BlockHash,
    BlockGasLimit,
    Log0,
    Log1,
    Log2,
    Log3,
    Log4,
    Revert,
    Invalid,
    Stop,
}

/// The instruction a byte encodes, if any.
pub open spec fn opcode_of(v: u8) -> Option<Opcode> {
    match v {
        0x00 => Some(Opcode::Stop),
        0x01 => Some(Opcode::Add),
        0x02 => Some(Opcode::Sub),
        0x03 => Some(Opcode::Mul),
        0x04 => Some(Opcode::Div),
        0x05 => Some(Opcode::Mod),
        0x06 => Some(Opcode::And),
        0x07 => Some(Opcode::Or),
        0x08 => Some(Opcode::Xor),
        0x09 => Some(Opcode::Not),
        0x0a => Some(Opcode::Shl),
        0x0b => Some(Opcode::Shr),
        0x0c => Some(Opcode::AddMod),
        0x0d => Some(Opcode::MulMod),
        0x0e => Some(Opcode::Eq),
        0x0f => Some(Opcode::Ne),
        0x10 => Some(Opcode::Lt),
        0x11 => Some(Opcode::Gt),
        0x12 => Some(Opcode::Le),
        0x13 => Some(Opcode::Ge),
        0x14 => Some(Opcode::LtU),
        0x15 => Some(Opcode::GtU),
        0x16 => Some(Opcode::Min),
        0x17 => Some(Opcode::Max),
        0x18 => Some(Opcode::MulDiv),
        0x20 => Some(Opcode::LoadImm),
        0x21 => Some(Opcode::LoadConst),
        0x22 => Some(Opcode::Store),
        0x23 => Some(Opcode::Load),
        0x30 => Some(Opcode::Address),
        0x31 => Some(Opcode::Balance),
        0x32 => Some(Opcode::Origin),
        0x33 => Some(Opcode::Caller),
        0x34 => Some(Opcode::CallValue),
        0x35 => Some(Opcode::CallDataSize),
        0x36 => Some(Opcode::CallDataLoad),
        0x37 => Some(Opcode::CallDataCopy),
        0x38 => Some(Opcode::CodeSize),
        0x39 => Some(Opcode::CodeCopy),
        0x3a => Some(Opcode::ExtCodeSize),
        0x3b => Some(Opcode::ExtCodeCopy),
        0x40 => Some(Opcode::GasLimit),
        0x41 => Some(Opcode::GasPrice),
        0x42 => Some(Opcode::BlockNumber),
        0x43 => Some(Opcode::Timestamp),
        0x44 => Some(Opcode::Difficulty),
        0x45 => Some(Opcode::Coinbase),
        0x46 => Some(Opcode::BlockHash),
        0x47 => Some(Opcode::BlockGasLimit),
        0x50 => Some(Opcode::PopStack),
        0x51 => Some(Opcode::PushStack),
        0x52 => Some(Opcode::Mov),
        0x53 => Some(Opcode::Swap),
        0x54 => Some(Opcode::Dup),
        0x55 => Some(Opcode::Drop),
        0x60 => Some(Opcode::Gas),
        0x70 => Some(Opcode::Jump),
        0x71 => Some(Opcode::JumpI),
        0x72 => Some(Opcode::Branch),
        0x80 => Some(Opcode::Call),
        0x81 => Some(Opcode::Return),
        0x82 => Some(Opcode::DelegateCall),
        0x83 => Some(Opcode::CallExt),
        0xa0 => Some(Opcode::Log0),
        0xa1 => Some(Opcode::Log1),
        0xa2 => Some(Opcode::Log2),
        0xa3 => Some(Opcode::Log3),
        0xa4 => Some(Opcode::Log4),
        0xf0 => Some(Opcode::Create),
        0xf1 => Some(Opcode::CallCode),
        0xf2 => Some(Opcode::SelfDestruct),
        0xf3 => Some(Opcode::Revert),
        0xfe => Some(Opcode::Invalid),
        _ => None,
    }
}

impl Opcode {
    /// Decodes an instruction byte.
    pub fn from_u8(v: u8) -> (r: Option<Self>)
        ensures
            r == opcode_of(v),
    {
        match v {
            0x00 => Some(Opcode::Stop),
            0x01 => Some(Opcode::Add),
            0x02 => Some(Opcode::Sub),
            0x03 => Some(Opcode::Mul),
            0x04 => Some(Opcode::Div),
            0x05 => Some(Opcode::Mod),
            0x06 => Some(Opcode::And),
            0x07 => Some(Opcode::Or),
            0x08 => Some(Opcode::Xor),
            0x09 => Some(Opcode::Not),
            0x0a => Some(Opcode::Shl),
            0x0b => Some(Opcode::Shr),
            0x0c => Some(Opcode::AddMod),
            0x0d => Some(Opcode::MulMod),
            0x0e => Some(Opcode::Eq),
            0x0f => Some(Opcode::Ne),
            0x10 => Some(Opcode::Lt),
            0x11 => Some(Opcode::Gt),
            0x12 => Some(Opcode::Le),
            0x13 => Some(Opcode::Ge),
            0x14 => Some(Opcode::LtU),
            0x15 => Some(Opcode::GtU),
            0x16 => Some(Opcode::Min),
            0x17 => Some(Opcode::Max),
            0x18 => Some(Opcode::MulDiv),
            0x20 => Some(Opcode::LoadImm),
            0x21 => Some(Opcode::LoadConst),
            0x22 => Some(Opcode::Store),
            0x23 => Some(Opcode::Load),
            0x30 => Some(Opcode::Address),
            0x31 => Some(Opcode::Balance),
            0x32 => Some(Opcode::Origin),
            0x33 => Some(Opcode::Caller),
            0x34 => Some(Opcode::CallValue),
            0x35 => Some(Opcode::CallDataSize),
            0x36 => Some(Opcode::CallDataLoad),
            0x37 => Some(Opcode::CallDataCopy),
            0x38 => Some(Opcode::CodeSize),
            0x39 => Some(Opcode::CodeCopy),
            0x3a => Some(Opcode::ExtCodeSize),
            0x3b => Some(Opcode::ExtCodeCopy),
            0x40 => Some(Opcode::GasLimit),
            0x41 => Some(Opcode::GasPrice),
            0x42 => Some(Opcode::BlockNumber),
            0x43 => Some(Opcode::Timestamp),
            0x44 => Some(Opcode::Difficulty),
            0x45 => Some(Opcode::Coinbase),
            0x46 => Some(Opcode::BlockHash),
            0x47 => Some(Opcode::BlockGasLimit),
            0x50 => Some(Opcode::PopStack),
            0x51 => Some(Opcode::PushStack),
            0x52 => Some(Opcode::Mov),
            0x53 => Some(Opcode::Swap),
            0x54 => Some(Opcode::Dup),
            0x55 => Some(Opcode::Drop),
            0x60 => Some(Opcode::Gas),
            0x70 => Some(Opcode::Jump),
            0x71 => Some(Opcode::JumpI),
            0x72 => Some(Opcode::Branch),
            0x80 => Some(Opcode::Call),
            0x81 => Some(Opcode::Return),
            0x82 => Some(Opcode::DelegateCall),
            0x83 => Some(Opcode::CallExt),
            0xa0 => Some(Opcode::Log0),
            0xa1 => Some(Opcode::Log1),
            0xa2 => Some(Opcode::Log2),
            0xa3 => Some(Opcode::Log3),
            0xa4 => Some(Opcode::Log4),
            0xf0 => Some(Opcode::Create),
            0xf1 => Some(Opcode::CallCode),
            0xf2 => Some(Opcode::SelfDestruct),
            0xf3 => Some(Opcode::Revert),
            0xfe => Some(Opcode::Invalid),
            _ => None,
        }
    }
}

/// Gas costs of the machine.
#[derive(Clone, Copy, Debug)]
pub struct GasSchedule {
    pub step: u64,
    pub jumpdest: u64,
    pub log: u64,
    pub create: u64,
    pub call: u64,
    pub memory: u64,
    pub storage_read: u64,
    pub storage_write: u64,
    pub call_storage_read: u64,
    pub call_storage_write: u64,
}

impl Default for GasSchedule {
    fn default() -> (r: Self)
        ensures
            r == (GasSchedule {
                step: 1,
                jumpdest: 1,
                log: 20,
                create: 100,
                call: 40,
                memory: 3,
                storage_read: 50,
                storage_write: 100,
                call_storage_read: 30,
                call_storage_write: 60,
            }),
    {
        GasSchedule {
            step: 1,
            jumpdest: 1,
            log: 20,
            create: 100,
            call: 40,
            memory: 3,
            storage_read: 50,
            storage_write: 100,
            call_storage_read: 30,
            call_storage_write: 60,
        }
    }
}

/// The environment of an execution.
#[derive(Clone, Debug)]
pub struct VmContext {
    pub address: Address,
    pub caller: Address,
    pub origin: Address,
    pub gas_limit: u64,
    pub gas_price: u128,
    pub call_value: u128,
    pub call_data: Vec<u8>,
    pub code: Vec<u8>,
    pub block_number: u64,
    pub timestamp: u64,
    pub difficulty: u128,
    pub coinbase: Address,
    pub block_hash: Hash32,
    pub block_gas_limit: u64,
}

impl VmContext {
    /// A context with no code, no call data, a gas price of 1 and the
    /// default block values.
    pub fn new(address: Address, caller: Address, origin: Address, gas_limit: u64) -> (r: Self)
        ensures
            r.address == address && r.caller == caller && r.origin == origin && r.gas_limit == gas_limit,
            r.gas_price == 1 && r.call_value == 0,
            r.call_data@.len() == 0 && r.code@.len() == 0,
            r.block_number == 0 && r.timestamp == 0 && r.difficulty == 0,
            r.coinbase.0@ == zeros32(),
            r.block_hash.0@ == zeros32(),
            r.block_gas_limit == 10000000,
    {
        VmContext {
            address,
            caller,
            origin,
            gas_limit,
            gas_price: 1,
            call_value: 0,
            call_data: Vec::new(),
            code: Vec::new(),
            block_number: 0,
            timestamp: 0,
            difficulty: 0,
            coinbase: Address(crate::bytes::zero32()),
            block_hash: Hash32::empty(),
            block_gas_limit: 10000000,
        }
    }
}

/// A log entry emitted by an execution.
#[derive(Clone, Debug)]
pub struct VmLog {
    pub topics: Vec<Hash32>,
    pub data: Vec<u8>,
}

/// A log entry with its topics and data taken by their views.
pub struct VmLogView {
    pub topics: Seq<Seq<u8>>,
    pub data: Seq<u8>,
}

impl View for VmLog {
    type V = VmLogView;

    open spec fn view(&self) -> VmLogView {
        VmLogView { topics: self.topics@.map_values(|h: Hash32| h.0@), data: self.data@ }
    }
}

/// The views of a list of logs.
pub open spec fn log_views(s: Seq<VmLog>) -> Seq<VmLogView> {
    s.map_values(|l: VmLog| l@)
}

/// The outcome of an execution.
#[derive(Clone, Debug)]
pub struct VmResult {
    pub success: bool,
    pub gas_used: u64,
    pub returned: Vec<u8>,
    pub logs: Vec<VmLog>,
    pub storage_changes: Table<Vec<u8>, Vec<u8>>,
}

/// Why the contract module refused an operation.
#[derive(Clone, Copy, Debug, PartialEq, Eq, Structural)]
pub enum ContractError {
    ContractNotFound,
    ContractFrozen,
    CodeNotFound,
    CodeTooLarge,
    InsufficientBalance,
    OutOfGas,
    InvalidCall,
    StorageError,
}

/// The machine: registers, stack, memory, contract storage, program
/// counter, gas, context, logs and the first error.
pub struct Vm {
    registers: [u128; 16],
    stack: Vec<u128>,
    memory: Vec<u8>,
    storage: Table<Vec<u8>, Vec<u8>>,
    pc: usize,
    gas_remaining: u64,
    gas_limit: u64,
    context: VmContext,
    logs: Vec<VmLog>,
    returned: Vec<u8>,
    error: Option<String>,
}

/// The model of the machine; `failed` says whether an error was recorded.
pub struct VmState {
    pub registers: Seq<u128>,
    pub stack: Seq<u128>,
    pub memory: Seq<u8>,
    pub storage: Map<Seq<u8>, Seq<u8>>,
    pub pc: usize,
    pub gas_remaining: u64,
    pub gas_limit: u64,
    pub context: VmContext,
    pub logs: Seq<VmLogView>,
    pub returned: Seq<u8>,
    pub failed: bool,
}

impl View for Vm {
    type V = VmState;

    closed spec fn view(&self) -> VmState {
        VmState {
            registers: self.registers@,
            stack: self.stack@,
            memory: self.memory@,
            storage: bytes_map(self.storage@),
            pc: self.pc,
            gas_remaining: self.gas_remaining,
            gas_limit: self.gas_limit,
            context: self.context,
            logs: log_views(self.logs@),
            returned: self.returned@,
            failed: self.error is Some,
        }
    }
}

/// The top of the stack, or 0 for an empty stack.
pub open spec fn top_or_zero(st: Seq<u128>) -> u128 {
    if st.len() > 0 {
        st.last()
    } else {
        0
    }
}

/// Pops a value (0 from an empty stack).
pub open spec fn pop1(s: VmState) -> (u128, VmState) {
    (top_or_zero(s.stack), VmState { stack: if s.stack.len() > 0 { s.stack.drop_last() } else { s.stack }, ..s })
}

/// Pushes a value.
pub open spec fn push_raw(s: VmState, v: u128) -> VmState {
    VmState { stack: s.stack.push(v), ..s }
}

/// Pushes a value unless the stack is full, in which case an error is
/// recorded and execution goes on.
pub open spec fn push_checked(s: VmState, v: u128) -> VmState {
    if s.stack.len() >= MAX_STACK_SIZE {
        VmState { failed: true, ..s }
    } else {
        push_raw(s, v)
    }
}

/// The value of the first 16 bytes of an address, little-endian.
pub open spec fn address_word(a: Address) -> u128 {
    le_value(a.0@.subrange(0, 16)) as u128
}

/// A 128-bit word read as a two's-complement signed number.
pub open spec fn signed_word(v: u128) -> int {
    if v < 0x8000_0000_0000_0000_0000_0000_0000_0000 {
        v as int
    } else {
        v as int - 0x1_0000_0000_0000_0000_0000_0000_0000_0000int
    }
}

/// Whether `a` is below `b` as signed words.
fn signed_lt(a: u128, b: u128) -> (r: bool)
    ensures
        r == (signed_word(a) < signed_word(b)),
{
    let h: u128 = 0x8000_0000_0000_0000_0000_0000_0000_0000;
    if (a >= h) == (b >= h) {
        a < b
    } else {
        a >= h
    }
}

/// Whether `a` is at most `b` as signed words.
fn signed_le(a: u128, b: u128) -> (r: bool)
    ensures
        r == (signed_word(a) <= signed_word(b)),
{
    let h: u128 = 0x8000_0000_0000_0000_0000_0000_0000_0000;
    if (a >= h) == (b >= h) {
        a <= b
    } else {
        a >= h
    }
}

/// The result of a two-operand instruction on `a` (below) and `b` (top).
pub open spec fn alu_spec(o: Opcode, a: u128, b: u128) -> u128 {
    match o {
        Opcode::Add => a.wrapping_add(b),
        Opcode::Sub => a.wrapping_sub(b),
        Opcode::Mul => a.wrapping_mul(b),
        Opcode::Div => if b == 0 { 0 } else { a / b },
        Opcode::Mod => if b == 0 { 0 } else { a % b },
        Opcode::And => a & b,
        Opcode::Or => a | b,
        Opcode::Xor => a ^ b,
        Opcode::Shl => a.wrapping_shl(b as u32),
        Opcode::Shr => a.wrapping_shr(b as u32),
        Opcode::Eq => if a == b { 1 } else { 0 },
        Opcode::Ne => if a != b { 1 } else { 0 },
        Opcode::Lt => if signed_word(a) < signed_word(b) { 1 } else { 0 },
        Opcode::Gt => if signed_word(a) > signed_word(b) { 1 } else { 0 },
        Opcode::Le => if signed_word(a) <= signed_word(b) { 1 } else { 0 },
        Opcode::Ge => if signed_word(a) >= signed_word(b) { 1 } else { 0 },
        Opcode::LtU => if a < b { 1 } else { 0 },
        Opcode::GtU => if a > b { 1 } else { 0 },
        _ => 0,
    }
}

/// Whether an instruction takes two operands and pushes `alu_spec`.
pub open spec fn is_binary(o: Opcode) -> bool {
    match o {
        Opcode::Add | Opcode::Sub | Opcode::Mul | Opcode::Div | Opcode::Mod | Opcode::And | Opcode::Or
        | Opcode::Xor | Opcode::Shl | Opcode::Shr | Opcode::Eq | Opcode::Ne | Opcode::Lt | Opcode::Gt
        | Opcode::Le | Opcode::Ge | Opcode::LtU | Opcode::GtU => true,
        _ => false,
    }
}

/// The value an environment instruction pushes, if `o` is one.
pub open spec fn env_value(o: Opcode, s: VmState) -> Option<u128> {
    match o {
        Opcode::Gas => Some(s.gas_remaining as u128),
        Opcode::GasLimit => Some(s.gas_limit as u128),
        Opcode::GasPrice => Some(s.context.gas_price),
        Opcode::Address => Some(address_word(s.context.address)),
        Opcode::Caller => Some(address_word(s.context.caller)),
        Opcode::CallValue => Some(s.context.call_value),
        Opcode::CallDataSize => Some(s.context.call_data@.len() as u128),
        Opcode::BlockNumber => Some(s.context.block_number as u128),
        Opcode::Timestamp => Some(s.context.timestamp as u128),
        Opcode::Difficulty => Some(s.context.difficulty),
        Opcode::Coinbase => Some(address_word(s.context.coinbase)),
        Opcode::BlockGasLimit => Some(s.context.block_gas_limit as u128),
        _ => None,
    }
}

/// The 32-byte topic made of a value: its 16 little-endian bytes and 16
/// zero bytes.
pub open spec fn topic_bytes(v: u128) -> Seq<u8> {
    slice_to_32(le_bytes(v as nat, 16))
}

/// Pops `n` topics, the first popped first.
pub open spec fn pop_topics(s: VmState, n: nat) -> (Seq<Seq<u8>>, VmState)
    decreases n,
{
    if n == 0 {
        (Seq::empty(), s)
    } else {
        let (ts, s1) = pop_topics(s, (n - 1) as nat);
        let (v, s2) = pop1(s1);
        (ts.push(topic_bytes(v)), s2)
    }
}

/// Memory after copying `src` to `dest`, growing it with zeros first when
/// it is too short.
pub open spec fn copy_into(mem: Seq<u8>, dest: int, src: Seq<u8>) -> Seq<u8> {
    let len = if dest + src.len() > mem.len() { dest + src.len() } else { mem.len() as int };
    Seq::new(
        len as nat,
        |i: int|
            if dest <= i < dest + src.len() {
                src[i - dest]
            } else if i < mem.len() {
                mem[i]
            } else {
                0u8
            },
    )
}

/// What an instruction other than the arithmetic and environment ones does,
/// after the step was charged; the flag says whether execution stops.
pub open spec fn exec_other(o: Opcode, byte: u8, s: VmState) -> (VmState, bool) {
    let code = s.context.code@;
    match o {
        Opcode::Stop | Opcode::Return | Opcode::Revert | Opcode::SelfDestruct | Opcode::Invalid => (s, true),
        Opcode::Not => {
            let (a, s1) = pop1(s);
            (push_raw(s1, !a), false)
        },
        Opcode::LoadImm => if s.pc + 16 > code.len() {
            (s, false)
        } else {
            (
                VmState {
                    pc: (s.pc + 16) as usize,
                    stack: s.stack.push(le_value(code.subrange(s.pc as int, s.pc + 16)) as u128),
                    ..s
                },
                false,
            )
        },
        Opcode::Dup => if s.stack.len() > 0 {
            (push_raw(s, s.stack.last()), false)
        } else {
            (s, false)
        },
        Opcode::Swap => if s.stack.len() >= 2 {
            let n = s.stack.len();
            (
                VmState {
                    stack: s.stack.update(n - 1, s.stack[n - 2]).update(n - 2, s.stack[n - 1]),
                    ..s
                },
                false,
            )
        } else {
            (s, false)
        },
        Opcode::Drop => (pop1(s).1, false),
        Opcode::PushStack => {
            let (v, s1) = pop1(s);
            (VmState { registers: s1.registers.update(0, v), ..s1 }, false)
        },
        Opcode::PopStack => (push_raw(s, s.registers[0]), false),
        Opcode::Jump => {
            let (t, s1) = pop1(s);
            if (t as usize) >= code.len() {
                (s1, true)
            } else {
                (VmState { pc: t as usize, ..s1 }, false)
            }
        },
        Opcode::JumpI => {
            let (t, s1) = pop1(s);
            let (c, s2) = pop1(s1);
            if c != 0 && (t as usize) < code.len() {
                (VmState { pc: t as usize, ..s2 }, false)
            } else {
                (s2, false)
            }
        },
        Opcode::Create => {
            let (_v, s1) = pop1(s);
            let (off, s2) = pop1(s1);
            let (size, s3) = pop1(s2);
            let o = (off as usize) as int;
            let z = (size as usize) as int;
            if o + z > s3.memory.len() {
                (VmState { failed: true, ..s3 }, false)
            } else {
                (
                    push_raw(
                        s3,
                        le_value(sha256_spec(s3.memory.subrange(o, o + z) + zeros32()).subrange(0, 16)) as u128,
                    ),
                    false,
                )
            }
        },
        Opcode::Log0 | Opcode::Log1 | Opcode::Log2 | Opcode::Log3 | Opcode::Log4 => {
            let (off, s1) = pop1(s);
            let (size, s2) = pop1(s1);
            let o = (off as usize) as int;
            let z = (size as usize) as int;
            if o + z > s2.memory.len() {
                (s2, true)
            } else {
                let (ts, s3) = pop_topics(s2, (byte - 0xa0) as nat);
                (
                    VmState {
                        logs: s3.logs.push(VmLogView { topics: ts, data: s3.memory.subrange(o, o + z) }),
                        ..s3
                    },
                    false,
                )
            }
        },
        Opcode::Call => {
            let (gas, s1) = pop1(s);
            let (_a, s2) = pop1(s1);
            let (_b, s3) = pop1(s2);
            let (_c, s4) = pop1(s3);
            let (_d, s5) = pop1(s4);
            let (_e, s6) = pop1(s5);
            if (gas as u64) > s6.gas_remaining {
                (s6, true)
            } else {
                (VmState { gas_remaining: (s6.gas_remaining - (gas as u64)) as u64, ..s6 }, false)
            }
        },
        Opcode::CallCode | Opcode::DelegateCall => (s, false),
        Opcode::Store => {
            let (key, s1) = pop1(s);
            let (value, s2) = pop1(s1);
            (
                VmState {
                    storage: s2.storage.insert(le_bytes(key as nat, 16), le_bytes(value as nat, 16)),
                    ..s2
                },
                false,
            )
        },
        Opcode::Load => {
            let (key, s1) = pop1(s);
            let k = le_bytes(key as nat, 16);
            let v = if s1.storage.dom().contains(k) {
                s1.storage[k]
            } else {
                Seq::empty()
            };
            (push_raw(s1, if v.len() == 16 { le_value(v) as u128 } else { 0 }), false)
        },
        Opcode::CallDataLoad => {
            let (off, s1) = pop1(s);
            let o = (off as usize) as int;
            let cd = s1.context.call_data@;
            if o + 16 <= cd.len() {
                (push_raw(s1, le_value(cd.subrange(o, o + 16)) as u128), false)
            } else {
                (push_raw(s1, 0), false)
            }
        },
        Opcode::CallDataCopy => {
            let (dest, s1) = pop1(s);
            let (off, s2) = pop1(s1);
            let (size, s3) = pop1(s2);
            let d = (dest as usize) as int;
            let o = (off as usize) as int;
            let z = (size as usize) as int;
            let cd = s3.context.call_data@;
            if o + z > cd.len() || d + z > usize::MAX {
                (s3, true)
            } else {
                (VmState { memory: copy_into(s3.memory, d, cd.subrange(o, o + z)), ..s3 }, false)
            }
        },
        Opcode::Mov => if s.stack.len() >= 2 {
            let (src, s1) = pop1(s);
            let (dst, s2) = pop1(s1);
            if (dst as usize) < 16 {
                (VmState { registers: s2.registers.update((dst as usize) as int, src), ..s2 }, false)
            } else {
                (s2, false)
            }
        } else {
            (s, false)
        },
        _ => (s, true),
    }
}

/// What an instruction does after the step was charged.
pub open spec fn exec_spec(o: Opcode, byte: u8, s: VmState) -> (VmState, bool) {
    if is_binary(o) {
        let (b, s1) = pop1(s);
        let (a, s2) = pop1(s1);
        (push_raw(s2, alu_spec(o, a, b)), false)
    } else if env_value(o, s) is Some {
        (push_checked(s, env_value(o, s)->0), false)
    } else {
        exec_other(o, byte, s)
    }
}

/// One step: charge the step cost (stopping when the gas does not cover
/// it), move past the instruction and carry it out; an undecodable byte
/// stops execution.
pub open spec fn step_spec(s: VmState, g: GasSchedule) -> (VmState, bool) {
    let byte = s.context.code@[s.pc as int];
    if s.gas_remaining < g.step {
        (s, true)
    } else {
        let c = VmState { gas_remaining: (s.gas_remaining - g.step) as u64, pc: (s.pc + 1) as usize, ..s };
        match opcode_of(byte) {
            Some(o) => exec_spec(o, byte, c),
            None => (c, true),
        }
    }
}

/// Running the machine: steps while the counter is inside the code and gas
/// remains; a step that stops records an error.
pub open spec fn run_spec(s: VmState, g: GasSchedule) -> VmState
    decreases s.gas_remaining,
{
    if s.pc < s.context.code@.len() && s.gas_remaining > 0 {
        let (s2, halted) = step_spec(s, g);
        if halted {
            VmState { failed: true, ..s2 }
        } else if s2.gas_remaining < s.gas_remaining {
            run_spec(s2, g)
        } else {
            s2
        }
    } else {
        s
    }
}

/// Popping topics changes only the stack.
proof fn lemma_pop_topics_frame(s: VmState, n: nat)
    ensures
        pop_topics(s, n).1 == (VmState { stack: pop_topics(s, n).1.stack, ..s }),
    decreases n,
{
    if n > 0 {
        lemma_pop_topics_frame(s, (n - 1) as nat);
    }
}

/// The result of a two-operand instruction.
fn alu(o: Opcode, a: u128, b: u128) -> (r: u128)
    ensures
        r == alu_spec(o, a, b),
{
    match o {
        Opcode::Add => a.wrapping_add(b),
        Opcode::Sub => a.wrapping_sub(b),
        Opcode::Mul => a.wrapping_mul(b),
        Opcode::Div => if b == 0 {
            0
        } else {
            a / b
        },
        Opcode::Mod => if b == 0 {
            0
        } else {
            a % b
        },
        Opcode::And => a & b,
        Opcode::Or => a | b,
        Opcode::Xor => a ^ b,
        Opcode::Shl => a.wrapping_shl(b as u32),
        Opcode::Shr => a.wrapping_shr(b as u32),
        Opcode::Eq => if a == b {
            1
        } else {
            0
        },
        Opcode::Ne => if a != b {
            1
        } else {
            0
        },
        Opcode::Lt => if signed_lt(a, b) {
            1
        } else {
            0
        },
        Opcode::Gt => if signed_lt(b, a) {
            1
        } else {
            0
        },
        Opcode::Le => if signed_le(a, b) {
            1
        } else {
            0
        },
        Opcode::Ge => if signed_le(b, a) {
            1
        } else {
            0
        },
        Opcode::LtU => if a < b {
            1
        } else {
            0
        },
        Opcode::GtU => if a > b {
            1
        } else {
            0
        },
        _ => 0,
    }
}

fn is_binary_op(o: Opcode) -> (r: bool)
    ensures
        r == is_binary(o),
{
    match o {
        Opcode::Add | Opcode::Sub | Opcode::Mul | Opcode::Div | Opcode::Mod | Opcode::And | Opcode::Or
        | Opcode::Xor | Opcode::Shl | Opcode::Shr | Opcode::Eq | Opcode::Ne | Opcode::Lt | Opcode::Gt
        | Opcode::Le | Opcode::Ge | Opcode::LtU | Opcode::GtU => true,
        _ => false,
    }
}

/// The 16 little-endian bytes of a value.
fn le16(v: u128) -> (r: Vec<u8>)
    ensures
        r@ == le_bytes(v as nat, 16),
{
    let mut out: Vec<u8> = Vec::new();
    push_le(&mut out, v, 16);
    assert(out@ =~= le_bytes(v as nat, 16));
    out
}

/// The message for a byte the machine does not carry out: `Unknown opcode: `
/// and the byte as two lower-case hex digits.
pub open spec fn unknown_opcode_text(byte: u8) -> Seq<char> {
    "Unknown opcode: "@ + hex_text(seq![byte])
}

/// The error an instruction stops with, once its step was charged; each
/// instruction has at most one.
pub open spec fn op_error(o: Opcode, byte: u8) -> Seq<char> {
    match o {
        Opcode::Stop => "Stop"@,
        Opcode::Return => "Return"@,
        Opcode::Revert => "Revert"@,
        Opcode::SelfDestruct => "SelfDestruct"@,
        Opcode::Invalid => "Invalid instruction"@,
        Opcode::Jump => "Invalid jump target"@,
        Opcode::Log0 | Opcode::Log1 | Opcode::Log2 | Opcode::Log3 | Opcode::Log4 => "Invalid log"@,
        Opcode::Call => "Out of gas for call"@,
        Opcode::CallDataCopy => "Invalid call data copy"@,
        _ => unknown_opcode_text(byte),
    }
}

/// The error a step stops with: `Out of gas` when the step cost is not
/// covered, else that of the instruction, or the unknown-opcode message for
/// a byte that decodes to none.
pub open spec fn step_error(s: VmState, g: GasSchedule) -> Seq<char> {
    let byte = s.context.code@[s.pc as int];
    if s.gas_remaining < g.step {
        "Out of gas"@
    } else {
        match opcode_of(byte) {
            Some(o) => op_error(o, byte),
            None => unknown_opcode_text(byte),
        }
    }
}

/// The instructions that decode but that the machine does not carry out.
pub open spec fn unimplemented_op(o: Opcode) -> bool {
    match o {
        Opcode::AddMod | Opcode::MulMod | Opcode::Min | Opcode::Max | Opcode::MulDiv | Opcode::LoadConst
        | Opcode::Balance | Opcode::Origin | Opcode::CodeSize | Opcode::CodeCopy | Opcode::ExtCodeSize
        | Opcode::ExtCodeCopy | Opcode::BlockHash | Opcode::Branch | Opcode::CallExt => true,
        _ => false,
    }
}

/// Two-operand arithmetic: on a stack ending in `x` then `y` (the top), a
/// step on Add, Sub, Mul, Div or Mod charges the step, moves past the byte
/// and replaces the two operands with one value `r`, where (modulo 2^128)
/// `r = x + y`, `r + y = x`, `r = x * y`, and for a non-zero `y`,
/// `r = x / y` or `r = x % y` (0 for a zero `y`). Nothing else changes.
pub proof fn lemma_step_arith(s: VmState, g: GasSchedule)
    requires
        s.pc < s.context.code@.len(),
        s.gas_remaining >= g.step,
        s.stack.len() >= 2,
        0x01 <= s.context.code@[s.pc as int] <= 0x05,
    ensures
        ({
            let byte = s.context.code@[s.pc as int];
            let n = s.stack.len();
            let x = s.stack[n - 2] as int;
            let y = s.stack[n - 1] as int;
            let m = 0x1_0000_0000_0000_0000_0000_0000_0000_0000int;
            let (t, halted) = step_spec(s, g);
            let r = t.stack[n - 2] as int;
            &&& !halted
            &&& t == (VmState {
                stack: t.stack,
                pc: (s.pc + 1) as usize,
                gas_remaining: (s.gas_remaining - g.step) as u64,
                ..s
            })
            &&& t.stack.len() == n - 1
            &&& t.stack.subrange(0, n - 2) == s.stack.subrange(0, n - 2)
            &&& byte == 0x01 ==> r == (x + y) % m
            &&& byte == 0x02 ==> (r + y) % m == x
            &&& byte == 0x03 ==> r == (x * y) % m
            &&& byte == 0x04 ==> r == if y == 0 { 0 } else { x / y }
            &&& byte == 0x05 ==> r == if y == 0 { 0 } else { x % y }
        }),
{
    let byte = s.context.code@[s.pc as int];
    let n = s.stack.len();
    let c = VmState { gas_remaining: (s.gas_remaining - g.step) as u64, pc: (s.pc + 1) as usize, ..s };
    let (b, s1) = pop1(c);
    let (a, s2) = pop1(s1);
    assert(s1.stack == s.stack.drop_last());
    assert(s2.stack == s.stack.drop_last().drop_last());
    assert(b == s.stack[n - 1] && a == s.stack[n - 2]);
    let (t, halted) = step_spec(s, g);
    assert(t.stack == s2.stack.push(alu_spec(opcode_of(byte)->0, a, b)));
    assert(t.stack.subrange(0, n - 2) =~= s.stack.subrange(0, n - 2));
    let m = 0x1_0000_0000_0000_0000_0000_0000_0000_0000int;
    if byte == 0x03 {
        assert((a as nat * b as nat) % (m as nat) < m) by (nonlinear_arith)
            requires m > 0;
    }
}

/// Comparisons: on a stack ending in `x` then `y` (the top), a step on a
/// comparison charges the step, moves past the byte and replaces the two
/// operands with 1 when the comparison of `x` with `y` holds and 0 when it
/// does not: equality, inequality, the signed orders (Lt, Gt, Le, Ge; a
/// word with its top bit set is negative, below every other) and the
/// unsigned ones (LtU, GtU). Nothing else changes.
pub proof fn lemma_step_compare(s: VmState, g: GasSchedule)
    requires
        s.pc < s.context.code@.len(),
        s.gas_remaining >= g.step,
        s.stack.len() >= 2,
        0x0e <= s.context.code@[s.pc as int] <= 0x15,
    ensures
        ({
            let byte = s.context.code@[s.pc as int];
            let n = s.stack.len();
            let x = s.stack[n - 2];
            let y = s.stack[n - 1];
            let (t, halted) = step_spec(s, g);
            let r = t.stack[n - 2];
            let h = 0x8000_0000_0000_0000_0000_0000_0000_0000u128;
            let neg_x = x >= h;
            let neg_y = y >= h;
            let holds = match byte {
                0x0e => x == y,
                0x0f => x != y,
                0x10 => if neg_x == neg_y { x < y } else { neg_x },
                0x11 => if neg_x == neg_y { x > y } else { neg_y },
                0x12 => if neg_x == neg_y { x <= y } else { neg_x },
                0x13 => if neg_x == neg_y { x >= y } else { neg_y },
                0x14 => x < y,
                _ => x > y,
            };
            &&& !halted
            &&& t == (VmState {
                stack: t.stack,
                pc: (s.pc + 1) as usize,
                gas_remaining: (s.gas_remaining - g.step) as u64,
                ..s
            })
            &&& t.stack.len() == n - 1
            &&& t.stack.subrange(0, n - 2) == s.stack.subrange(0, n - 2)
            &&& r == if holds { 1u128 } else { 0u128 }
        }),
{
    let byte = s.context.code@[s.pc as int];
    let n = s.stack.len();
    let c = VmState { gas_remaining: (s.gas_remaining - g.step) as u64, pc: (s.pc + 1) as usize, ..s };
    let (b, s1) = pop1(c);
    let (a, s2) = pop1(s1);
    assert(s1.stack == s.stack.drop_last());
    assert(s2.stack == s.stack.drop_last().drop_last());
    assert(b == s.stack[n - 1] && a == s.stack[n - 2]);
    let (t, halted) = step_spec(s, g);
    assert(t.stack == s2.stack.push(alu_spec(opcode_of(byte)->0, a, b)));
    assert(t.stack.subrange(0, n - 2) =~= s.stack.subrange(0, n - 2));
}

/// A step whose cost the remaining gas does not cover changes nothing and
/// stops with `Out of gas`.
pub proof fn lemma_step_out_of_gas(s: VmState, g: GasSchedule)
    requires
        s.pc < s.context.code@.len(),
        s.gas_remaining < g.step,
    ensures
        step_spec(s, g) == (s, true),
        step_error(s, g) == "Out of gas"@,
{
}

/// A step on a byte that decodes to no instruction, or to one the machine
/// does not carry out, charges the step, moves past the byte and stops
/// with the unknown-opcode message for that byte.
pub proof fn lemma_step_unknown_opcode(s: VmState, g: GasSchedule)
    requires
        s.pc < s.context.code@.len(),
        s.gas_remaining >= g.step,
        match opcode_of(s.context.code@[s.pc as int]) {
            Some(o) => unimplemented_op(o),
            None => true,
        },
    ensures
        step_spec(s, g) == (VmState { gas_remaining: (s.gas_remaining - g.step) as u64, pc: (s.pc + 1) as usize, ..s }, true),
        step_error(s, g) == unknown_opcode_text(s.context.code@[s.pc as int]),
{
}

/// Formats the message for a byte the machine does not carry out with
/// `format!("Unknown opcode: {:02x}", ..)`. Trusted: std documents `x` as
/// lower-case hex and `02` as zero padding to two places, so the text is
/// the prefix and the byte's two hex digits, high digit first.
#[verifier::external_body]
fn unknown_opcode_message(opcode: u8) -> (r: String)
    ensures
        r@ == unknown_opcode_text(opcode),
{
    format!("Unknown opcode: {:02x}", opcode)
}

impl Vm {
    /// The storage table is well formed and the counter lies within the code.
    pub closed spec fn wf(&self) -> bool {
        &&& self.storage.wf()
        &&& self.pc <= self.context.code@.len()
    }

    /// A machine at the start of `context`'s code with its whole gas limit.
    pub fn new(context: VmContext) -> (r: Self)
        ensures
            r.wf(),
            r@ == (VmState {
                registers: Seq::new(16, |i: int| 0u128),
                stack: Seq::empty(),
                memory: Seq::empty(),
                storage: Map::empty(),
                pc: 0,
                gas_remaining: context.gas_limit,
                gas_limit: context.gas_limit,
                context,
                logs: Seq::empty(),
                returned: Seq::empty(),
                failed: false,
            }),
    {
        let gas = context.gas_limit;
        let r = Vm {
            registers: [0u128; 16],
            stack: Vec::new(),
            memory: Vec::new(),
            storage: Table::new(),
            pc: 0,
            gas_remaining: gas,
            gas_limit: gas,
            context,
            logs: Vec::new(),
            returned: Vec::new(),
            error: None,
        };
        assert(r.registers@ =~= Seq::new(16, |i: int| 0u128));
        assert(bytes_map(r.storage@) =~= Map::<Seq<u8>, Seq<u8>>::empty());
        assert(log_views(r.logs@) =~= Seq::<VmLogView>::empty());
        r
    }

    fn pop(&mut self) -> (r: u128)
        requires
            old(self).wf(),
        ensures
            final(self).wf(),
            (r, final(self)@) == pop1(old(self)@),
    {
        let r = match self.stack.pop() {
            Some(v) => v,
            None => 0,
        };
        proof {
            assert(self@ == pop1(old(self)@).1);
        }
        r
    }

    fn push_unchecked(&mut self, v: u128)
        requires
            old(self).wf(),
        ensures
            final(self).wf(),
            final(self)@ == push_raw(old(self)@, v),
    {
        self.stack.push(v);
    }

    fn push(&mut self, value: u128)
        requires
            old(self).wf(),
        ensures
            final(self).wf(),
            final(self)@ == push_checked(old(self)@, value),
    {
        if self.stack.len() >= MAX_STACK_SIZE {
            self.error = Some("Stack overflow".to_string());
            return;
        }
        self.stack.push(value);
    }

    fn binary_op(&mut self, o: Opcode)
        requires
            old(self).wf(),
        ensures
            final(self).wf(),
            final(self)@ == ({
                let (b, s1) = pop1(old(self)@);
                let (a, s2) = pop1(s1);
                push_raw(s2, alu_spec(o, a, b))
            }),
    {
        let b = self.pop();
        let a = self.pop();
        let r = alu(o, a, b);
        self.push_unchecked(r);
    }

    fn env_value_of(&self, o: Opcode) -> (r: Option<u128>)
        ensures
            r == env_value(o, self@),
    {
        match o {
            Opcode::Gas => Some(self.gas_remaining as u128),
            Opcode::GasLimit => Some(self.gas_limit as u128),
            Opcode::GasPrice => Some(self.context.gas_price),
            Opcode::Address => Some(read_u128_le(self.context.address.0.as_slice(), 0)),
            Opcode::Caller => Some(read_u128_le(self.context.caller.0.as_slice(), 0)),
            Opcode::CallValue => Some(self.context.call_value),
            Opcode::CallDataSize => Some(self.context.call_data.len() as u128),
            Opcode::BlockNumber => Some(self.context.block_number as u128),
            Opcode::Timestamp => Some(self.context.timestamp as u128),
            Opcode::Difficulty => Some(self.context.difficulty),
            Opcode::Coinbase => Some(read_u128_le(self.context.coinbase.0.as_slice(), 0)),
            Opcode::BlockGasLimit => Some(self.context.block_gas_limit as u128),
            _ => None,
        }
    }

    fn load_imm(&mut self)
        requires
            old(self).wf(),
        ensures
            final(self).wf(),
            (final(self)@, false) == exec_other(Opcode::LoadImm, 0x20, old(self)@),
    {
        let len = self.context.code.len();
        if len < 16 || self.pc > len - 16 {
            return;
        }
        let v = read_u128_le(self.context.code.as_slice(), self.pc);
        self.pc = self.pc + 16;
        self.stack.push(v);
    }

    fn dup(&mut self)
        requires
            old(self).wf(),
        ensures
            final(self).wf(),
            (final(self)@, false) == exec_other(Opcode::Dup, 0x54, old(self)@),
    {
        let len = self.stack.len();
        if len > 0 {
            let top = self.stack[len - 1];
            self.stack.push(top);
        }
    }

    fn swap(&mut self)
        requires
            old(self).wf(),
        ensures
            final(self).wf(),
            (final(self)@, false) == exec_other(Opcode::Swap, 0x53, old(self)@),
    {
        let len = self.stack.len();
        if len >= 2 {
            let x = self.stack[len - 1];
            let y = self.stack[len - 2];
            self.stack[len - 1] = y;
            self.stack[len - 2] = x;
        }
    }

    fn drop(&mut self)
        requires
            old(self).wf(),
        ensures
            final(self).wf(),
            (final(self)@, false) == exec_other(Opcode::Drop, 0x55, old(self)@),
    {
        self.pop();
    }

    fn push_stack(&mut self)
        requires
            old(self).wf(),
        ensures
            final(self).wf(),
            (final(self)@, false) == exec_other(Opcode::PushStack, 0x51, old(self)@),
    {
        let value = self.pop();
        self.registers[0] = value;
        proof {
            assert(self.registers@ =~= pop1(old(self)@).1.registers.update(0, value));
        }
    }

    fn pop_stack(&mut self)
        requires
            old(self).wf(),
        ensures
            final(self).wf(),
            (final(self)@, false) == exec_other(Opcode::PopStack, 0x50, old(self)@),
    {
        let value = self.registers[0];
        self.stack.push(value);
    }

    fn mov(&mut self)
        requires
            old(self).wf(),
        ensures
            final(self).wf(),
            (final(self)@, false) == exec_other(Opcode::Mov, 0x52, old(self)@),
    {
        if self.stack.len() >= 2 {
            let src = self.pop();
            let dst = self.pop() as usize;
            if dst < 16 {
                let ghost before = self.registers@;
                self.registers[dst] = src;
                proof {
                    assert(self.registers@ =~= before.update(dst as int, src));
                }
            }
        }
    }

    fn jump(&mut self) -> (r: Result<(), String>)
        requires
            old(self).wf(),
        ensures
            final(self).wf(),
            (final(self)@, r is Err) == exec_other(Opcode::Jump, 0x70, old(self)@),
            r matches Err(e) ==> e@ == "Invalid jump target"@,
    {
        let target = self.pop() as usize;
        if target >= self.context.code.len() {
            return Err("Invalid jump target".to_string());
        }
        self.pc = target;
        Ok(())
    }

    fn jumpi(&mut self) -> (r: Result<(), String>)
        requires
            old(self).wf(),
        ensures
            final(self).wf(),
            r is Ok,
            (final(self)@, false) == exec_other(Opcode::JumpI, 0x71, old(self)@),
    {
        let target = self.pop() as usize;
        let condition = self.pop();
        if condition != 0 && target < self.context.code.len() {
            self.pc = target;
        }
        Ok(())
    }

    fn call(&mut self) -> (r: Result<(), String>)
        requires
            old(self).wf(),
        ensures
            final(self).wf(),
            (final(self)@, r is Err) == exec_other(Opcode::Call, 0x80, old(self)@),
            r matches Err(e) ==> e@ == "Out of gas for call"@,
    {
        let gas = self.pop();
        let _addr = self.pop();
        let _args_offset = self.pop();
        let _args_size = self.pop();
        let _ret_offset = self.pop();
        let _ret_size = self.pop();
        if gas as u64 > self.gas_remaining {
            return Err("Out of gas for call".to_string());
        }
        self.gas_remaining = self.gas_remaining - gas as u64;
        Ok(())
    }

    fn callcode(&self) -> (r: Result<(), String>)
        ensures
            r is Ok,
    {
        Ok(())
    }

    fn delegate_call(&self) -> (r: Result<(), String>)
        ensures
            r is Ok,
    {
        Ok(())
    }

    fn create(&mut self)
        requires
            old(self).wf(),
        ensures
            final(self).wf(),
            (final(self)@, false) == exec_other(Opcode::Create, 0xf0, old(self)@),
    {
        let _value = self.pop();
        let offset = self.pop() as usize;
        let size = self.pop() as usize;
        let mlen = self.memory.len();
        let end = match offset.checked_add(size) {
            Some(e) => e,
            None => {
                self.error = Some("Invalid creation".to_string());
                return;
            },
        };
        if end > self.memory.len() {
            self.error = Some("Invalid creation".to_string());
            return;
        }
        let mut data: Vec<u8> = Vec::new();
        let mut i: usize = offset;
        while i < end
            invariant
                offset <= i <= end,
                end == offset + size,
                end <= self.memory@.len(),
                data@ == self.memory@.subrange(offset as int, i as int),
            decreases end - i,
        {
            data.push(self.memory[i]);
            assert(data@ =~= self.memory@.subrange(offset as int, i + 1));
            i = i + 1;
        }
        let zeros = crate::bytes::zero32();
        push_all(&mut data, zeros.as_slice());
        let h = sha256(data.as_slice());
        let v = read_u128_le(h.as_slice(), 0);
        self.stack.push(v);
    }

    fn store(&mut self) -> (r: Result<(), String>)
        requires
            old(self).wf(),
        ensures
            final(self).wf(),
            r is Ok,
            (final(self)@, false) == exec_other(Opcode::Store, 0x22, old(self)@),
    {
        let key = self.pop();
        let value = self.pop();
        let key_bytes = le16(key);
        let value_bytes = le16(value);
        let ghost before = self.storage@;
        self.storage.insert(key_bytes, value_bytes);
        proof {
            assert(bytes_map(self.storage@) =~= bytes_map(before).insert(key_bytes@, value_bytes@));
        }
        Ok(())
    }

    fn load(&mut self) -> (r: Result<(), String>)
        requires
            old(self).wf(),
        ensures
            final(self).wf(),
            r is Ok,
            (final(self)@, false) == exec_other(Opcode::Load, 0x23, old(self)@),
    {
        let key = self.pop();
        let key_bytes = le16(key);
        let value_u128 = match self.storage.get(&key_bytes) {
            Some(v) => if v.len() == 16 {
                read_u128_le(v.as_slice(), 0)
            } else {
                0
            },
            None => 0,
        };
        proof {
            if self.storage@.dom().contains(key_bytes@) {
                let v = self.storage@[key_bytes@];
                assert(v@.subrange(0, 16) =~= v@ || v@.len() != 16);
            }
        }
        self.stack.push(value_u128);
        Ok(())
    }

    fn call_data_load(&mut self) -> (r: Result<(), String>)
        requires
            old(self).wf(),
        ensures
            final(self).wf(),
            r is Ok,
            (final(self)@, false) == exec_other(Opcode::CallDataLoad, 0x36, old(self)@),
    {
        let offset = self.pop() as usize;
        let len = self.context.call_data.len();
        if offset <= len && len - offset >= 16 {
            let v = read_u128_le(self.context.call_data.as_slice(), offset);
            self.stack.push(v);
        } else {
            self.stack.push(0);
        }
        Ok(())
    }

    fn call_data_copy(&mut self) -> (r: Result<(), String>)
        requires
            old(self).wf(),
        ensures
            final(self).wf(),
            (final(self)@, r is Err) == exec_other(Opcode::CallDataCopy, 0x37, old(self)@),
            r matches Err(e) ==> e@ == "Invalid call data copy"@,
    {
        let dest_offset = self.pop() as usize;
        let offset = self.pop() as usize;
        let size = self.pop() as usize;
        let len = self.context.call_data.len();
        if offset > len || size > len - offset {
            return Err("Invalid call data copy".to_string());
        }
        let end = match dest_offset.checked_add(size) {
            Some(e) => e,
            None => {
                return Err("Invalid call data copy".to_string());
            },
        };
        let ghost mem0 = self.memory@;
        let ghost src = self.context.call_data@.subrange(offset as int, offset + size);
        if end > self.memory.len() {
            self.memory.resize(end, 0);
        }
        let ghost grown = self.memory@;
        assert(grown.len() >= end);
        assert(self@ == (VmState { memory: self.memory@, ..pop1(pop1(pop1(old(self)@).1).1).1 }));
        let ghost s3 = self@;
        let mut i: usize = 0;
        while i < size
            invariant
                self.wf(),
                self@ == (VmState { memory: self.memory@, ..s3 }),
                len == self.context.call_data@.len(),
                i <= size,
                offset + size <= self.context.call_data@.len(),
                dest_offset + size == end,
                end <= self.memory@.len(),
                self.memory@.len() == grown.len(),
                src == self.context.call_data@.subrange(offset as int, offset + size),
                forall|j: int| 0 <= j < self.memory@.len() ==> #[trigger] self.memory@[j] == if dest_offset <= j < dest_offset + i {
                    src[j - dest_offset]
                } else {
                    grown[j]
                },
            decreases size - i,
        {
            let b = self.context.call_data[offset + i];
            self.memory[dest_offset + i] = b;
            i = i + 1;
        }
        proof {
            assert forall|j: int| 0 <= j < grown.len() implies #[trigger] grown[j] == (if j < mem0.len() { mem0[j] } else { 0u8 }) by {
                if j >= mem0.len() {
                    assert(end > mem0.len());
                }
            }
            assert(self.memory@ =~= copy_into(mem0, dest_offset as int, src));
        }
        Ok(())
    }

    fn log(&mut self, num_topics: u8) -> (r: Result<(), String>)
        requires
            old(self).wf(),
            num_topics <= 4,
        ensures
            final(self).wf(),
            (final(self)@, r is Err) == exec_other(Opcode::Log0, (0xa0 + num_topics) as u8, old(self)@),
            r matches Err(e) ==> e@ == "Invalid log"@,
    {
        let offset = self.pop() as usize;
        let size = self.pop() as usize;
        let mlen = self.memory.len();
        let end = match offset.checked_add(size) {
            Some(e) => e,
            None => {
                return Err("Invalid log".to_string());
            },
        };
        if end > self.memory.len() {
            return Err("Invalid log".to_string());
        }
        let mut topics: Vec<Hash32> = Vec::new();
        let mut k: u8 = 0;
        let ghost s2 = self@;
        proof {
            lemma_pop_topics_frame(s2, 0);
        }
        while k < num_topics
            invariant
                self.wf(),
                k <= num_topics,
                (topics@.map_values(|h: Hash32| h.0@), self@) == pop_topics(s2, k as nat),
                self@ == (VmState { stack: self@.stack, ..s2 }),
                end == offset + size,
                end <= s2.memory.len(),
            decreases num_topics - k,
        {
            proof {
                lemma_pop_topics_frame(s2, (k + 1) as nat);
            }
            let topic = self.pop();
            let mut buf: Vec<u8> = Vec::new();
            push_le(&mut buf, topic, 16);
            let h = Hash32(bytes32_from_slice(buf.as_slice()));
            let ghost before = topics@;
            topics.push(h);
            proof {
                assert(topics@.map_values(|h: Hash32| h.0@) =~= before.map_values(|h: Hash32| h.0@).push(topic_bytes(topic)));
            }
            k = k + 1;
        }
        let mut data: Vec<u8> = Vec::new();
        let mut i: usize = offset;
        while i < end
            invariant
                offset <= i <= end,
                end == offset + size,
                end <= self.memory@.len(),
                data@ == self.memory@.subrange(offset as int, i as int),
            decreases end - i,
        {
            data.push(self.memory[i]);
            assert(data@ =~= self.memory@.subrange(offset as int, i + 1));
            i = i + 1;
        }
        let ghost before_logs = self.logs@;
        self.logs.push(VmLog { topics, data });
        proof {
            assert(log_views(self.logs@) =~= log_views(before_logs).push(
                VmLogView { topics: topics@.map_values(|h: Hash32| h.0@), data: data@ },
            ));
        }
        Ok(())
    }

    fn execute_op(&mut self, o: Opcode, byte: u8) -> (r: Result<(), String>)
        requires
            old(self).wf(),
            opcode_of(byte) == Some(o),
        ensures
            final(self).wf(),
            (final(self)@, r is Err) == exec_spec(o, byte, old(self)@),
            r matches Err(e) ==> e@ == op_error(o, byte),
    {
        if is_binary_op(o) {
            self.binary_op(o);
            return Ok(());
        }
        match self.env_value_of(o) {
            Some(v) => {
                self.push(v);
                return Ok(());
            },
            None => {},
        }
        match o {
            Opcode::Stop => Err("Stop".to_string()),
            Opcode::Return => Err("Return".to_string()),
            Opcode::Revert => Err("Revert".to_string()),
            Opcode::SelfDestruct => Err("SelfDestruct".to_string()),
            Opcode::Invalid => Err("Invalid instruction".to_string()),
            Opcode::Not => {
                let a = self.pop();
                self.push_unchecked(!a);
                Ok(())
            },
            Opcode::LoadImm => {
                self.load_imm();
                Ok(())
            },
            Opcode::Dup => {
                self.dup();
                Ok(())
            },
            Opcode::Swap => {
                self.swap();
                Ok(())
            },
            Opcode::Drop => {
                self.drop();
                Ok(())
            },
            Opcode::PushStack => {
                self.push_stack();
                Ok(())
            },
            Opcode::PopStack => {
                self.pop_stack();
                Ok(())
            },
            Opcode::Jump => self.jump(),
            Opcode::JumpI => self.jumpi(),
            Opcode::Create => {
                self.create();
                Ok(())
            },
            Opcode::Log0 | Opcode::Log1 | Opcode::Log2 | Opcode::Log3 | Opcode::Log4 => self.log(byte - 0xa0),
            Opcode::Call => self.call(),
            Opcode::CallCode => self.callcode(),
            Opcode::DelegateCall => self.delegate_call(),
            Opcode::Store => self.store(),
            Opcode::Load => self.load(),
            Opcode::CallDataLoad => self.call_data_load(),
            Opcode::CallDataCopy => self.call_data_copy(),
            Opcode::Mov => {
                self.mov();
                Ok(())
            },
            _ => Err(unknown_opcode_message(byte)),
        }
    }

    /// Carries out the instruction at the counter (see `step_spec`); an
    /// error carries the text `step_error` gives.
    fn execute_instruction(&mut self, gas_schedule: &GasSchedule) -> (r: Result<(), String>)
        requires
            old(self).wf(),
            old(self).pc < old(self).context.code@.len(),
        ensures
            final(self).wf(),
            (final(self)@, r is Err) == step_spec(old(self)@, *gas_schedule),
            r matches Err(e) ==> e@ == step_error(old(self)@, *gas_schedule),
    {
        let len = self.context.code.len();
        let opcode = self.context.code[self.pc];
        if self.gas_remaining < gas_schedule.step {
            return Err("Out of gas".to_string());
        }
        self.gas_remaining = self.gas_remaining - gas_schedule.step;
        self.pc = self.pc + 1;
        match Opcode::from_u8(opcode) {
            Some(o) => self.execute_op(o, opcode),
            None => Err(unknown_opcode_message(opcode)),
        }
    }

    /// Runs the code while the counter is inside it and gas remains (see
    /// `run_spec`) and reports whether no error was recorded, the gas used
    /// and the logs. The step must cost some gas: with a free step a jump
    /// back can run forever, and this function is one that always returns.
    /// The default schedule's step costs 1.
    pub fn execute(&mut self, gas_schedule: &GasSchedule) -> (r: VmResult)
        requires
            old(self).wf(),
            gas_schedule.step > 0,
        ensures
            final(self).wf(),
            final(self)@ == run_spec(old(self)@, *gas_schedule),
            r.success == !final(self)@.failed,
            r.gas_used == final(self)@.gas_limit.saturating_sub(final(self)@.gas_remaining),
            r.returned@ == final(self)@.returned,
            log_views(r.logs@) == final(self)@.logs,
            r.storage_changes.wf(),
            r.storage_changes@ == Map::<Seq<u8>, Vec<u8>>::empty(),
    {
        let ghost target = run_spec(self@, *gas_schedule);
        loop
            invariant_except_break
                run_spec(self@, *gas_schedule) == target,
            invariant
                self.wf(),
                gas_schedule.step > 0,
            ensures
                self.wf(),
                self@ == target,
            decreases self.gas_remaining,
        {
            if !(self.pc < self.context.code.len() && self.gas_remaining > 0) {
                break;
            }
            let ghost before = self@;
            proof {
                lemma_step_gas(before, *gas_schedule);
            }
            match self.execute_instruction(gas_schedule) {
                Err(e) => {
                    self.error = Some(e);
                    break;
                },
                Ok(()) => {},
            }
        }
        VmResult {
            success: self.error.is_none(),
            gas_used: self.gas_limit.saturating_sub(self.gas_remaining),
            returned: self.returned.clone(),
            logs: copy_logs(&self.logs),
            storage_changes: Table::new(),
        }
    }
}

/// A step that does not stop uses at least the step cost.
proof fn lemma_step_gas(s: VmState, g: GasSchedule)
    requires
        g.step > 0,
        s.pc < s.context.code@.len(),
    ensures
        !step_spec(s, g).1 ==> step_spec(s, g).0.gas_remaining < s.gas_remaining,
{
    let byte = s.context.code@[s.pc as int];
    if s.gas_remaining >= g.step {
        let c = VmState { gas_remaining: (s.gas_remaining - g.step) as u64, pc: (s.pc + 1) as usize, ..s };
        match opcode_of(byte) {
            Some(o) => {
                if !is_binary(o) && !(env_value(o, c) is Some) {
                    match o {
                        Opcode::Log0 | Opcode::Log1 | Opcode::Log2 | Opcode::Log3 | Opcode::Log4 => {
                            let (off, s1) = pop1(c);
                            let (size, s2) = pop1(s1);
                            lemma_pop_topics_frame(s2, (byte - 0xa0) as nat);
                        },
                        _ => {},
                    }
                }
            },
            None => {},
        }
    }
}

/// A copy of a list of logs.
fn copy_logs(logs: &Vec<VmLog>) -> (r: Vec<VmLog>)
    ensures
        log_views(r@) == log_views(logs@),
{
    let mut out: Vec<VmLog> = Vec::new();
    let mut i: usize = 0;
    while i < logs.len()
        invariant
            i <= logs@.len(),
            out@.len() == i,
            log_views(out@) == log_views(logs@.subrange(0, i as int)),
        decreases logs@.len() - i,
    {
        let mut topics: Vec<Hash32> = Vec::new();
        let mut k: usize = 0;
        while k < logs[i].topics.len()
            invariant
                i < logs@.len(),
                k <= logs@[i as int].topics@.len(),
                topics@ == logs@[i as int].topics@.subrange(0, k as int),
            decreases logs@[i as int].topics@.len() - k,
        {
            topics.push(logs[i].topics[k]);
            assert(topics@ =~= logs@[i as int].topics@.subrange(0, k + 1));
            k = k + 1;
        }
        assert(topics@ =~= logs@[i as int].topics@);
        let ghost before = out@;
        let d = logs[i].data.clone();
        assert(d@ =~= logs@[i as int].data@);
        out.push(VmLog { topics, data: d });
        assert(out@[i as int].topics@ == logs@[i as int].topics@);
        assert(out@[i as int].data@ == logs@[i as int].data@);
        assert(out@[i as int]@.topics =~= logs@[i as int]@.topics);
        assert(out@[i as int]@ == logs@[i as int]@);
        proof {
            assert forall|j: int| 0 <= j < i + 1 implies #[trigger] log_views(out@)[j] == log_views(logs@.subrange(0, i + 1))[j] by {
                if j < i {
                    assert(out@[j] == before[j]);
                    assert(log_views(before)[j] == log_views(logs@.subrange(0, i as int))[j]);
                }
            }
            assert(log_views(out@) =~= log_views(logs@.subrange(0, i + 1)));
        }
        i = i + 1;
    }
    assert(logs@.subrange(0, i as int) =~= logs@);
    out
}

/// A deployed contract.
#[derive(Clone, Debug)]
pub struct ContractInstance {
    pub address: Address,
    pub owner: Address,
    pub code_hash: Hash32,
    pub storage: Table<Vec<u8>, Vec<u8>>,
    pub balance: u128,
    pub nonce: u64,
    pub frozen: bool,
}

/// A contract with its storage taken by its bytes.
pub struct ContractView {
    pub address: Address,
    pub owner: Address,
    pub code_hash: Hash32,
    pub storage: Map<Seq<u8>, Seq<u8>>,
    pub balance: u128,
    pub nonce: u64,
    pub frozen: bool,
}

impl View for ContractInstance {
    type V = ContractView;

    open spec fn view(&self) -> ContractView {
        ContractView {
            address: self.address,
            owner: self.owner,
            code_hash: self.code_hash,
            storage: bytes_map(self.storage@),
            balance: self.balance,
            nonce: self.nonce,
            frozen: self.frozen,
        }
    }
}

/// A contract with empty storage, no balance and nonce 0.
pub open spec fn fresh_contract(address: Address, owner: Address, code_hash: Hash32) -> ContractView {
    ContractView { address, owner, code_hash, storage: Map::empty(), balance: 0, nonce: 0, frozen: false }
}

/// The views of a table of contracts.
pub open spec fn contract_views(m: Map<Seq<u8>, ContractInstance>) -> Map<Seq<u8>, ContractView> {
    m.map_values(|c: ContractInstance| c@)
}

impl ContractInstance {
    pub fn new(address: Address, owner: Address, code_hash: Hash32) -> (r: Self)
        ensures
            r.storage.wf(),
            r@ == fresh_contract(address, owner, code_hash),
    {
        let r = ContractInstance {
            address,
            owner,
            code_hash,
            storage: Table::new(),
            balance: 0,
            nonce: 0,
            frozen: false,
        };
        assert(bytes_map(r.storage@) =~= Map::<Seq<u8>, Seq<u8>>::empty());
        r
    }
}

/// The context of a call: the callee's address, the caller as caller and
/// origin, the gas limit, the value, the call data and the code, and the
/// defaults of `VmContext::new` elsewhere.
pub open spec fn call_context(
    ctx: VmContext,
    address: Address,
    caller: Address,
    gas_limit: u64,
    value: u128,
    call_data: Seq<u8>,
    code: Seq<u8>,
) -> bool {
    &&& ctx.address == address && ctx.caller == caller && ctx.origin == caller
    &&& ctx.gas_limit == gas_limit && ctx.gas_price == 1 && ctx.call_value == value
    &&& ctx.call_data@ == call_data && ctx.code@ == code
    &&& ctx.block_number == 0 && ctx.timestamp == 0 && ctx.difficulty == 0
    &&& ctx.coinbase.0@ == zeros32() && ctx.block_hash.0@ == zeros32()
    &&& ctx.block_gas_limit == 10000000
}

/// The machine at the start of a call in `ctx` over `storage`.
pub open spec fn initial_state(ctx: VmContext, storage: Map<Seq<u8>, Seq<u8>>) -> VmState {
    VmState {
        registers: Seq::new(16, |i: int| 0u128),
        stack: Seq::empty(),
        memory: Seq::empty(),
        storage,
        pc: 0,
        gas_remaining: ctx.gas_limit,
        gas_limit: ctx.gas_limit,
        context: ctx,
        logs: Seq::empty(),
        returned: Seq::empty(),
        failed: false,
    }
}

/// The address of a contract: the digest of its owner and its code hash.
pub open spec fn contract_address_spec(owner: Address, code: Seq<u8>) -> Seq<u8> {
    sha256_spec(owner.0@ + sha256_spec(code))
}

/// Deployed contracts, their code by hash, and the gas schedule.
pub struct ContractModule {
    pub contracts: Table<Address, ContractInstance>,
    pub code_store: Table<Hash32, Vec<u8>>,
    pub gas_schedule: GasSchedule,
}

impl ContractModule {
    /// The tables and every contract's storage are well formed.
    pub open spec fn wf(&self) -> bool {
        &&& self.contracts.wf()
        &&& self.code_store.wf()
        &&& forall|k: Seq<u8>| #[trigger] self.contracts@.dom().contains(k) ==> self.contracts@[k].storage.wf()
    }

    pub fn new() -> (r: Self)
        ensures
            r.wf(),
            r.contracts@ == Map::<Seq<u8>, ContractInstance>::empty(),
            r.code_store@ == Map::<Seq<u8>, Vec<u8>>::empty(),
            r.gas_schedule == (GasSchedule {
                step: 1,
                jumpdest: 1,
                log: 20,
                create: 100,
                call: 40,
                memory: 3,
                storage_read: 50,
                storage_write: 100,
                call_storage_read: 30,
                call_storage_write: 60,
            }),
    {
        ContractModule { contracts: Table::new(), code_store: Table::new(), gas_schedule: GasSchedule::default() }
    }

    /// Deploys `code` for `owner` with `value` as balance, at the address
    /// `contract_address_spec`; a contract already there is replaced.
    pub fn deploy(&mut self, owner: Address, code: Vec<u8>, value: u128) -> (r: Result<Address, ContractError>)
        requires
            old(self).wf(),
        ensures
            final(self).wf(),
            final(self).gas_schedule == old(self).gas_schedule,
            code@.len() > MAX_CONTRACT_CODE_SIZE ==> r == Err::<Address, ContractError>(ContractError::CodeTooLarge)
                && final(self).contracts@ == old(self).contracts@ && final(self).code_store@ == old(self).code_store@,
            code@.len() <= MAX_CONTRACT_CODE_SIZE ==> {
                let h = sha256_spec(code@);
                let a = contract_address_spec(owner, code@);
                &&& r matches Ok(addr) && addr.0@ == a
                &&& final(self).code_store@ == old(self).code_store@.insert(h, code)
                &&& contract_views(final(self).contracts@) == contract_views(old(self).contracts@).insert(
                    a,
                    ContractView { balance: value, ..fresh_contract(r->Ok_0, owner, final(self).contracts@[a].code_hash) },
                )
                &&& final(self).contracts@[a].code_hash.0@ == h
            },
    {
        if code.len() > MAX_CONTRACT_CODE_SIZE {
            return Err(ContractError::CodeTooLarge);
        }
        let code_hash = Self::compute_code_hash(code.as_slice());
        let mut input: Vec<u8> = Vec::new();
        push_all(&mut input, owner.0.as_slice());
        push_all(&mut input, code_hash.0.as_slice());
        let address = Address(sha256(input.as_slice()));
        self.code_store.insert(code_hash, code);
        let mut contract = ContractInstance::new(address, owner, code_hash);
        contract.balance = value;
        let ghost before = self.contracts@;
        self.contracts.insert(address, contract);
        proof {
            assert(contract_views(self.contracts@) =~= contract_views(before).insert(address.0@, contract@));
        }
        Ok(address)
    }

    fn compute_code_hash(code: &[u8]) -> (r: Hash32)
        ensures
            r.0@ == sha256_spec(code@),
    {
        Hash32(sha256(code))
    }

    /// Runs a contract's code on its storage with the call data and value
    /// (see `run_spec`); the storage it leaves becomes the contract's and
    /// its nonce grows by one; every other contract, its storage included,
    /// is left as it is. As for `Vm::execute`, the step must cost some
    /// gas, so that every run ends.
    pub fn call(
        &mut self,
        contract_addr: &Address,
        caller: Address,
        method: &[u8],
        call_data: Vec<u8>,
        gas_limit: u64,
        value: u128,
    ) -> (r: Result<VmResult, ContractError>)
        requires
            old(self).wf(),
            old(self).contracts@.dom().contains(contract_addr.0@) ==> old(self).contracts@[contract_addr.0@].nonce
                < u64::MAX,
            old(self).gas_schedule.step > 0,
        ensures
            final(self).wf(),
            final(self).gas_schedule == old(self).gas_schedule,
            final(self).code_store == old(self).code_store,
            final(self).contracts@.dom() == old(self).contracts@.dom(),
            forall|a: Seq<u8>|
                a != contract_addr.0@ && #[trigger] old(self).contracts@.dom().contains(a) ==> final(self).contracts@[a]
                    == old(self).contracts@[a],
            ({
                let k = contract_addr.0@;
                let c = old(self).contracts@[k];
                &&& !old(self).contracts@.dom().contains(k) ==> r == Err::<VmResult, ContractError>(
                    ContractError::ContractNotFound,
                ) && final(self).contracts@ == old(self).contracts@
                &&& old(self).contracts@.dom().contains(k) && c.frozen ==> r == Err::<VmResult, ContractError>(
                    ContractError::ContractFrozen,
                ) && final(self).contracts@ == old(self).contracts@
                &&& old(self).contracts@.dom().contains(k) && !c.frozen && !old(self).code_store@.dom().contains(
                    c.code_hash.0@,
                ) ==> r == Err::<VmResult, ContractError>(ContractError::CodeNotFound) && final(self).contracts@
                    == old(self).contracts@
                &&& old(self).contracts@.dom().contains(k) && !c.frozen && old(self).code_store@.dom().contains(
                    c.code_hash.0@,
                ) ==> exists|ctx: VmContext|
                    #![trigger call_context(ctx, *contract_addr, caller, gas_limit, value, call_data@, old(self).code_store@[c.code_hash.0@]@)]
                    call_context(ctx, *contract_addr, caller, gas_limit, value, call_data@, old(self).code_store@[c.code_hash.0@]@)
                        && {
                        let fin = run_spec(initial_state(ctx, bytes_map(c.storage@)), old(self).gas_schedule);
                        &&& r matches Ok(res) && res.success == !fin.failed && res.gas_used
                            == fin.gas_limit.saturating_sub(fin.gas_remaining) && res.returned@ == fin.returned
                            && log_views(res.logs@) == fin.logs && res.storage_changes@ == Map::<Seq<u8>, Vec<u8>>::empty()
                        &&& contract_views(final(self).contracts@) == contract_views(old(self).contracts@).insert(
                            k,
                            ContractView { storage: fin.storage, nonce: (c.nonce + 1) as u64, ..c@ },
                        )
                    }
            }),
    {
        let (frozen, code_hash) = match self.contracts.get(contract_addr) {
            Some(c) => (c.frozen, c.code_hash),
            None => {
                return Err(ContractError::ContractNotFound);
            },
        };
        if frozen {
            return Err(ContractError::ContractFrozen);
        }
        let code = match self.code_store.get(&code_hash) {
            Some(c) => c.clone(),
            None => {
                return Err(ContractError::CodeNotFound);
            },
        };
        let mut context = VmContext::new(*contract_addr, caller, caller, gas_limit);
        context.call_data = call_data;
        context.call_value = value;
        context.code = code;
        let ghost ctx = context;
        let mut vm = Vm::new(context);
        let storage = match self.contracts.get(contract_addr) {
            Some(c) => copy_bytes_table(&c.storage),
            None => Table::new(),
        };
        vm.storage = storage;
        let ghost s0 = vm@;
        let schedule = self.gas_schedule;
        let result = vm.execute(&schedule);
        let new_storage = copy_bytes_table(&vm.storage);
        let ghost before = self.contracts@;
        match self.contracts.get_mut(contract_addr) {
            Some(c) => {
                c.storage = new_storage;
                c.nonce = c.nonce + 1;
            },
            None => {},
        }
        proof {
            assert(s0 == initial_state(ctx, bytes_map(before[contract_addr.0@].storage@)));
            assert(call_context(ctx, *contract_addr, caller, gas_limit, value, call_data@, old(self).code_store@[code_hash.0@]@));
            assert(contract_views(self.contracts@) =~= contract_views(before).insert(
                contract_addr.0@,
                ContractView { storage: vm@.storage, nonce: (before[contract_addr.0@].nonce + 1) as u64, ..before[contract_addr.0@]@ },
            ));
        }
        Ok(result)
    }

    pub fn get_contract(&self, address: &Address) -> (r: Option<&ContractInstance>)
        requires
            self.wf(),
        ensures
            r is Some <==> self.contracts@.dom().contains(address.0@),
            r matches Some(c) ==> *c == self.contracts@[address.0@],
    {
        self.contracts.get(address)
    }

    /// A contract's balance, 0 for an unknown address.
    pub fn get_balance(&self, address: &Address) -> (r: u128)
        requires
            self.wf(),
        ensures
            r == (if self.contracts@.dom().contains(address.0@) { self.contracts@[address.0@].balance } else { 0 }),
    {
        match self.contracts.get(address) {
            Some(c) => c.balance,
            None => 0,
        }
    }

    /// Moves `amount` between contract balances; an unknown recipient gets a
    /// fresh contract owned by itself with an empty code hash.
    pub fn transfer(&mut self, from: &Address, to: &Address, amount: u128) -> (r: Result<(), ContractError>)
        requires
            old(self).wf(),
        ensures
            final(self).wf(),
            final(self).gas_schedule == old(self).gas_schedule,
            final(self).code_store == old(self).code_store,
            ({
                let m = contract_views(old(self).contracts@);
                let f = from.0@;
                let t = to.0@;
                &&& !m.dom().contains(f) ==> r == Err::<(), ContractError>(ContractError::ContractNotFound)
                    && final(self).contracts@ == old(self).contracts@
                &&& m.dom().contains(f) && m[f].balance < amount ==> r == Err::<(), ContractError>(
                    ContractError::InsufficientBalance,
                ) && final(self).contracts@ == old(self).contracts@
                &&& m.dom().contains(f) && m[f].balance >= amount ==> {
                    let m1 = m.insert(f, ContractView { balance: (m[f].balance - amount) as u128, ..m[f] });
                    let tc = if m1.dom().contains(t) {
                        m1[t]
                    } else {
                        fresh_contract(*to, *to, final(self).contracts@[t].code_hash)
                    };
                    &&& r is Ok
                    &&& contract_views(final(self).contracts@) == m1.insert(
                        t,
                        ContractView { balance: tc.balance.saturating_add(amount), ..tc },
                    )
                    &&& !m1.dom().contains(t) ==> final(self).contracts@[t].code_hash.0@ == crate::bytes::zeros32()
                }
            }),
    {
        let ghost m0 = self.contracts@;
        match self.contracts.get(from) {
            Some(c) => {
                if c.balance < amount {
                    return Err(ContractError::InsufficientBalance);
                }
            },
            None => {
                return Err(ContractError::ContractNotFound);
            },
        }
        match self.contracts.get_mut(from) {
            Some(c) => {
                c.balance = c.balance - amount;
            },
            None => {},
        }
        let ghost m1 = self.contracts@;
        proof {
            assert(contract_views(m1) =~= contract_views(m0).insert(
                from.0@,
                ContractView { balance: (m0[from.0@].balance - amount) as u128, ..m0[from.0@]@ },
            ));
        }
        let present = self.contracts.contains_key(to);
        if !present {
            let fresh = ContractInstance::new(*to, *to, Hash32::empty());
            self.contracts.insert(*to, fresh);
        }
        let ghost m2 = self.contracts@;
        match self.contracts.get_mut(to) {
            Some(c) => {
                c.balance = c.balance.saturating_add(amount);
            },
            None => {},
        }
        proof {
            assert(contract_views(self.contracts@) =~= contract_views(m1).insert(
                to.0@,
                ContractView { balance: m2[to.0@].balance.saturating_add(amount), ..m2[to.0@]@ },
            ));
        }
        Ok(())
    }
}

impl Default for ContractModule {
    fn default() -> (r: Self)
        ensures
            r.wf(),
            r.contracts@ == Map::<Seq<u8>, ContractInstance>::empty(),
            r.code_store@ == Map::<Seq<u8>, Vec<u8>>::empty(),
    {
        ContractModule::new()
    }
}

} // verus!
