//! The stack machine that runs contract bytecode: 128-bit words on a
//! stack, gas charged per instruction from a schedule, and storage writes
//! collected as changes.

use vstd::prelude::*;
use crate::bytes::{bytes32_eq, le_bytes, push_le};
use crate::kernel::{Address, Hash32};
use crate::table::{Table, TableKey, bytes_map};
use crate::vm::VMError;

verus! {

pub const MAX_MEMORY_SIZE: usize = 1048576;

pub const MAX_STACK_DEPTH: usize = 1024;

pub const NUM_REGISTERS: usize = 16;

/// The instructions of the machine.
#[allow(non_camel_case_types)]
#[derive(Clone, Copy, Debug, PartialEq, Eq, Structural)]
pub enum OpCode {
    ADD,
    SUB,
    MUL,
    DIV,
    MOD,
    AND,
    OR,
    XOR,
    NOT,
    SHL,
    SHR,
    EQ,
    NE,
    LT,
    GT,
    LE,
    GE,
    JMP,
    JMPIF,
    CALL,
    RET,
    LOAD,
    STORE,
    MLOAD,
    MSTORE,
    PUSH,
    POP,
    DUP,
    SWAP,
    GET_SENDER,
    GET_BLOCK_HEIGHT,
    GET_GAS,
    SLOAD,
    SSTORE,
    CCALL,
    REVERT,
}

/// The byte that encodes each instruction.
pub open spec fn op_byte(op: OpCode) -> u8 {
    match op {
        OpCode::ADD => 0x01,
        OpCode::SUB => 0x02,
        OpCode::MUL => 0x03,
        OpCode::DIV => 0x04,
        OpCode::MOD => 0x05,
        OpCode::AND => 0x10,
        OpCode::OR => 0x11,
        OpCode::XOR => 0x12,
        OpCode::NOT => 0x13,
        OpCode::SHL => 0x14,
        OpCode::SHR => 0x15,
        OpCode::EQ => 0x20,
        OpCode::NE => 0x21,
        OpCode::LT => 0x22,
        OpCode::GT => 0x23,
        OpCode::LE => 0x24,
        OpCode::GE => 0x25,
        OpCode::JMP => 0x30,
        OpCode::JMPIF => 0x31,
        OpCode::CALL => 0x32,
        OpCode::RET => 0x33,
        OpCode::LOAD => 0x40,
        OpCode::STORE => 0x41,
        OpCode::MLOAD => 0x42,
        OpCode::MSTORE => 0x43,
        OpCode::PUSH => 0x50,
        OpCode::POP => 0x51,
        OpCode::DUP => 0x52,
        OpCode::SWAP => 0x53,
        OpCode::GET_SENDER => 0x60,
        OpCode::GET_BLOCK_HEIGHT => 0x61,
        OpCode::GET_GAS => 0x62,
        OpCode::SLOAD => 0x70,
        OpCode::SSTORE => 0x71,
        OpCode::CCALL => 0x80,
        OpCode::REVERT => 0xff,
    }
}

/// The instruction a byte encodes, if any.
pub open spec fn op_of_byte(byte: u8) -> Option<OpCode> {
    if exists|op: OpCode| op_byte(op) == byte {
        Some(choose|op: OpCode| op_byte(op) == byte)
    } else {
        None
    }
}

/// Each instruction has its own byte.
pub proof fn lemma_op_byte_injective(a: OpCode, b: OpCode)
    ensures
        op_byte(a) == op_byte(b) ==> a == b,
{
}

impl OpCode {
    /// Decodes an instruction byte.
    pub fn from_byte(byte: u8) -> (r: Option<Self>)
        ensures
            r == op_of_byte(byte),
            r matches Some(op) ==> op_byte(op) == byte,
    {
        let r = match byte {
            0x01 => Some(OpCode::ADD),
            0x02 => Some(OpCode::SUB),
            0x03 => Some(OpCode::MUL),
            0x04 => Some(OpCode::DIV),
            0x05 => Some(OpCode::MOD),
            0x10 => Some(OpCode::AND),
            0x11 => Some(OpCode::OR),
            0x12 => Some(OpCode::XOR),
            0x13 => Some(OpCode::NOT),
            0x14 => Some(OpCode::SHL),
            0x15 => Some(OpCode::SHR),
            0x20 => Some(OpCode::EQ),
            0x21 => Some(OpCode::NE),
            0x22 => Some(OpCode::LT),
            0x23 => Some(OpCode::GT),
            0x24 => Some(OpCode::LE),
            0x25 => Some(OpCode::GE),
            0x30 => Some(OpCode::JMP),
            0x31 => Some(OpCode::JMPIF),
            0x32 => Some(OpCode::CALL),
            0x33 => Some(OpCode::RET),
            0x40 => Some(OpCode::LOAD),
            0x41 => Some(OpCode::STORE),
            0x42 => Some(OpCode::MLOAD),
            0x43 => Some(OpCode::MSTORE),
            0x50 => Some(OpCode::PUSH),
            0x51 => Some(OpCode::POP),
            0x52 => Some(OpCode::DUP),
            0x53 => Some(OpCode::SWAP),
            0x60 => Some(OpCode::GET_SENDER),
            0x61 => Some(OpCode::GET_BLOCK_HEIGHT),
            0x62 => Some(OpCode::GET_GAS),
            0x70 => Some(OpCode::SLOAD),
            0x71 => Some(OpCode::SSTORE),
            0x80 => Some(OpCode::CCALL),
            0xff => Some(OpCode::REVERT),
            _ => None,
        };
        proof {
            match r {
                Some(op) => {
                    assert(op_byte(op) == byte);
                    let c = choose|c: OpCode| op_byte(c) == byte;
                    lemma_op_byte_injective(op, c);
                },
                None => {
                    assert forall|op: OpCode| op_byte(op) != byte by {
                        match op {
                            OpCode::ADD => {},
                            OpCode::SUB => {},
                            OpCode::MUL => {},
                            OpCode::DIV => {},
                            OpCode::MOD => {},
                            OpCode::AND => {},
                            OpCode::OR => {},
                            OpCode::XOR => {},
                            OpCode::NOT => {},
                            OpCode::SHL => {},
                            OpCode::SHR => {},
                            OpCode::EQ => {},
                            OpCode::NE => {},
                            OpCode::LT => {},
                            OpCode::GT => {},
                            OpCode::LE => {},
                            OpCode::GE => {},
                            OpCode::JMP => {},
                            OpCode::JMPIF => {},
                            OpCode::CALL => {},
                            OpCode::RET => {},
                            OpCode::LOAD => {},
                            OpCode::STORE => {},
                            OpCode::MLOAD => {},
                            OpCode::MSTORE => {},
                            OpCode::PUSH => {},
                            OpCode::POP => {},
                            OpCode::DUP => {},
                            OpCode::SWAP => {},
                            OpCode::GET_SENDER => {},
                            OpCode::GET_BLOCK_HEIGHT => {},
                            OpCode::GET_GAS => {},
                            OpCode::SLOAD => {},
                            OpCode::SSTORE => {},
                            OpCode::CCALL => {},
                            OpCode::REVERT => {},
                        }
                    }
                },
            }
        }
        r
    }
}

/// The gas each instruction costs.
#[derive(Clone, Copy, Debug, PartialEq, Eq, Structural)]
pub struct GasSchedule {
    pub add_gas: u64,
    pub sub_gas: u64,
    pub mul_gas: u64,
    pub div_gas: u64,
    pub mod_gas: u64,
    pub and_gas: u64,
    pub or_gas: u64,
    pub xor_gas: u64,
    pub not_gas: u64,
    pub shl_gas: u64,
    pub shr_gas: u64,
    pub eq_gas: u64,
    pub ne_gas: u64,
    pub lt_gas: u64,
    pub gt_gas: u64,
    pub le_gas: u64,
    pub ge_gas: u64,
    pub jmp_gas: u64,
    pub jmpif_gas: u64,
    pub call_gas: u64,
    pub ret_gas: u64,
    pub load_gas: u64,
    pub store_gas: u64,
    pub mload_gas: u64,
    pub mstore_gas: u64,
    pub push_gas: u64,
    pub pop_gas: u64,
    pub dup_gas: u64,
    pub swap_gas: u64,
    pub get_sender_gas: u64,
    pub get_block_height_gas: u64,
    pub get_gas_gas: u64,
    pub sload_gas: u64,
    pub sstore_gas: u64,
    pub ccall_gas: u64,
    pub revert_gas: u64,
}

/// The default costs.
pub open spec fn default_vm_gas() -> GasSchedule {
    GasSchedule {
        add_gas: 3,
        sub_gas: 3,
        mul_gas: 5,
        div_gas: 5,
        mod_gas: 5,
        and_gas: 3,
        or_gas: 3,
        xor_gas: 3,
        not_gas: 3,
        shl_gas: 3,
        shr_gas: 3,
        eq_gas: 3,
        ne_gas: 3,
        lt_gas: 3,
        gt_gas: 3,
        le_gas: 3,
        ge_gas: 3,
        jmp_gas: 3,
        jmpif_gas: 3,
        call_gas: 50,
        ret_gas: 3,
        load_gas: 5,
        store_gas: 5,
        mload_gas: 10,
        mstore_gas: 10,
        push_gas: 2,
        pop_gas: 2,
        dup_gas: 2,
        swap_gas: 2,
        get_sender_gas: 10,
        get_block_height_gas: 10,
        get_gas_gas: 10,
        sload_gas: 5000,
        sstore_gas: 50000,
        ccall_gas: 10000,
        revert_gas: 3,
    }
}

impl Default for GasSchedule {
    fn default() -> (r: Self)
        ensures
            r == default_vm_gas(),
    {
        GasSchedule {
            add_gas: 3,
            sub_gas: 3,
            mul_gas: 5,
            div_gas: 5,
            mod_gas: 5,
            and_gas: 3,
            or_gas: 3,
            xor_gas: 3,
            not_gas: 3,
            shl_gas: 3,
            shr_gas: 3,
            eq_gas: 3,
            ne_gas: 3,
            lt_gas: 3,
            gt_gas: 3,
            le_gas: 3,
            ge_gas: 3,
            jmp_gas: 3,
            jmpif_gas: 3,
            call_gas: 50,
            ret_gas: 3,
            load_gas: 5,
            store_gas: 5,
            mload_gas: 10,
            mstore_gas: 10,
            push_gas: 2,
            pop_gas: 2,
            dup_gas: 2,
            swap_gas: 2,
            get_sender_gas: 10,
            get_block_height_gas: 10,
            get_gas_gas: 10,
            sload_gas: 5000,
            sstore_gas: 50000,
            ccall_gas: 10000,
            revert_gas: 3,
        }
    }
}

/// The cost of an instruction under schedule `g`.
pub open spec fn op_gas(g: GasSchedule, op: OpCode) -> u64 {
    match op {
        OpCode::ADD => g.add_gas,
        OpCode::SUB => g.sub_gas,
        OpCode::MUL => g.mul_gas,
        OpCode::DIV => g.div_gas,
        OpCode::MOD => g.mod_gas,
        OpCode::AND => g.and_gas,
        OpCode::OR => g.or_gas,
        OpCode::XOR => g.xor_gas,
        OpCode::NOT => g.not_gas,
        OpCode::SHL => g.shl_gas,
        OpCode::SHR => g.shr_gas,
        OpCode::EQ => g.eq_gas,
        OpCode::NE => g.ne_gas,
        OpCode::LT => g.lt_gas,
        OpCode::GT => g.gt_gas,
        OpCode::LE => g.le_gas,
        OpCode::GE => g.ge_gas,
        OpCode::JMP => g.jmp_gas,
        OpCode::JMPIF => g.jmpif_gas,
        OpCode::CALL => g.call_gas,
        OpCode::RET => g.ret_gas,
        OpCode::LOAD => g.load_gas,
        OpCode::STORE => g.store_gas,
        OpCode::MLOAD => g.mload_gas,
        OpCode::MSTORE => g.mstore_gas,
        OpCode::PUSH => g.push_gas,
        OpCode::POP => g.pop_gas,
        OpCode::DUP => g.dup_gas,
        OpCode::SWAP => g.swap_gas,
        OpCode::GET_SENDER => g.get_sender_gas,
        OpCode::GET_BLOCK_HEIGHT => g.get_block_height_gas,
        OpCode::GET_GAS => g.get_gas_gas,
        OpCode::SLOAD => g.sload_gas,
        OpCode::SSTORE => g.sstore_gas,
        OpCode::CCALL => g.ccall_gas,
        OpCode::REVERT => g.revert_gas,
    }
}

/// Whether every instruction costs some gas, so that every run ends.
pub open spec fn schedule_positive(g: GasSchedule) -> bool {
    forall|op: OpCode| op_gas(g, op) > 0
}

impl GasSchedule {
    pub fn get_op_gas(&self, opcode: OpCode) -> (r: u64)
        ensures
            r == op_gas(*self, opcode),
    {
        match opcode {
            OpCode::ADD => self.add_gas,
            OpCode::SUB => self.sub_gas,
            OpCode::MUL => self.mul_gas,
            OpCode::DIV => self.div_gas,
            OpCode::MOD => self.mod_gas,
            OpCode::AND => self.and_gas,
            OpCode::OR => self.or_gas,
            OpCode::XOR => self.xor_gas,
            OpCode::NOT => self.not_gas,
            OpCode::SHL => self.shl_gas,
            OpCode::SHR => self.shr_gas,
            OpCode::EQ => self.eq_gas,
            OpCode::NE => self.ne_gas,
            OpCode::LT => self.lt_gas,
            OpCode::GT => self.gt_gas,
            OpCode::LE => self.le_gas,
            OpCode::GE => self.ge_gas,
            OpCode::JMP => self.jmp_gas,
            OpCode::JMPIF => self.jmpif_gas,
            OpCode::CALL => self.call_gas,
            OpCode::RET => self.ret_gas,
            OpCode::LOAD => self.load_gas,
            OpCode::STORE => self.store_gas,
            OpCode::MLOAD => self.mload_gas,
            OpCode::MSTORE => self.mstore_gas,
            OpCode::PUSH => self.push_gas,
            OpCode::POP => self.pop_gas,
            OpCode::DUP => self.dup_gas,
            OpCode::SWAP => self.swap_gas,
            OpCode::GET_SENDER => self.get_sender_gas,
            OpCode::GET_BLOCK_HEIGHT => self.get_block_height_gas,
            OpCode::GET_GAS => self.get_gas_gas,
            OpCode::SLOAD => self.sload_gas,
            OpCode::SSTORE => self.sstore_gas,
            OpCode::CCALL => self.ccall_gas,
            OpCode::REVERT => self.revert_gas,
        }
    }
}

/// Arithmetic and comparisons: on a stack ending in `x` then `y` (the top)
/// with the instruction's gas covered, a step replaces the two operands
/// with one value `r` and moves on: modulo 2^128, `r = x + y`, `r + y = x`,
/// `r = x * y`; `r = x / y` and `r = x % y` (a zero `y` fails with division
/// by zero instead); and 1 or 0 as `x` equals, differs from, is below,
/// above, at most or at least `y` (unsigned).
pub proof fn lemma_tvm_step_arith(
    g: GasSchedule,
    ctx: ExecutionContext,
    storage: Map<(Seq<u8>, Seq<u8>), Seq<u8>>,
    code: Seq<u8>,
    s: TvmState,
    op: OpCode,
)
    requires
        0 <= s.pc < code.len(),
        op_of_byte(code[s.pc]) == Some(op),
        is_binary_op(op),
        op != OpCode::AND && op != OpCode::OR && op != OpCode::XOR && op != OpCode::SHL && op != OpCode::SHR,
        s.gas >= op_gas(g, op),
        s.stack.len() >= 2,
    ensures
        ({
            let n = s.stack.len();
            let x = s.stack[n - 2];
            let y = s.stack[n - 1];
            let xi = x as int;
            let yi = y as int;
            let m = 0x1_0000_0000_0000_0000_0000_0000_0000_0000int;
            let t = tvm_step(g, ctx, storage, code, s);
            let r = t.state.stack[n - 2];
            let ri = r as int;
            let flag = |b: bool| if b { 1u128 } else { 0u128 };
            &&& (op == OpCode::DIV || op == OpCode::MOD) && y == 0 ==> t.kind == StepKind::Fail && t.err
                == VMError::DivisionByZero && t.state == s
            &&& !((op == OpCode::DIV || op == OpCode::MOD) && y == 0) ==> {
                &&& t.kind == StepKind::Next
                &&& t.state.pc == s.pc + 1
                &&& t.state.gas == s.gas - op_gas(g, op)
                &&& t.state.changes == s.changes && t.state.ret == s.ret
                &&& t.state.stack.len() == n - 1
                &&& t.state.stack.take(n - 2) == s.stack.take(n - 2)
                &&& op == OpCode::ADD ==> ri == (xi + yi) % m
                &&& op == OpCode::SUB ==> (ri + yi) % m == xi
                &&& op == OpCode::MUL ==> ri == (xi * yi) % m
                &&& op == OpCode::DIV ==> ri == xi / yi
                &&& op == OpCode::MOD ==> ri == xi % yi
                &&& op == OpCode::EQ ==> r == flag(x == y)
                &&& op == OpCode::NE ==> r == flag(x != y)
                &&& op == OpCode::LT ==> r == flag(x < y)
                &&& op == OpCode::GT ==> r == flag(x > y)
                &&& op == OpCode::LE ==> r == flag(x <= y)
                &&& op == OpCode::GE ==> r == flag(x >= y)
            }
        }),
{
    let n = s.stack.len();
    let t = tvm_step(g, ctx, storage, code, s);
    let m = 0x1_0000_0000_0000_0000_0000_0000_0000_0000int;
    if !((op == OpCode::DIV || op == OpCode::MOD) && s.stack[n - 1] == 0) {
        assert(t.state.stack == s.stack.take(n - 2).push(bin_value(op, s.stack[n - 2], s.stack[n - 1])));
        assert(t.state.stack.take(n - 2) =~= s.stack.take(n - 2));
        if op == OpCode::MUL {
            let a = s.stack[n - 2];
            let b = s.stack[n - 1];
            assert((a as nat * b as nat) % (m as nat) < m) by (nonlinear_arith)
                requires m > 0;
        }
    }
}

/// The default schedule charges for every instruction.
pub proof fn lemma_default_schedule_positive()
    ensures
        schedule_positive(default_vm_gas()),
{
    assert forall|op: OpCode| op_gas(default_vm_gas(), op) > 0 by {
        match op {
            _ => {},
        }
    }
}

/// Who runs code, where, and with how much gas.
#[derive(Clone, Copy, Debug, Default)]
pub struct ExecutionContext {
    pub sender: Address,
    pub contract_address: Address,
    pub block_height: u64,
    pub gas_limit: u64,
    pub gas_remaining: u64,
}

/// The outcome of a run that did not fail.
#[derive(Debug)]
pub struct TVMExecutionResult {
    pub success: bool,
    pub gas_used: u64,
    pub return_data: Vec<u8>,
    pub storage_changes: Table<Vec<u8>, Vec<u8>>,
}

impl TableKey for (Address, Vec<u8>) {
    type KV = (Seq<u8>, Seq<u8>);

    open spec fn kview(&self) -> (Seq<u8>, Seq<u8>) {
        (self.0.0@, self.1@)
    }

    fn key_eq(&self, other: &Self) -> (r: bool) {
        bytes32_eq(&self.0.0, &other.0.0) && crate::bytes::bytes_eq(self.1.as_slice(), other.1.as_slice())
    }
}

/// The machine's state between instructions.
pub ghost struct TvmState {
    pub pc: int,
    pub stack: Seq<u128>,
    pub gas: u64,
    pub changes: Map<Seq<u8>, Seq<u8>>,
    pub ret: Seq<u8>,
}

/// How an instruction ends.
#[derive(Clone, Copy, Debug, PartialEq, Eq, Structural)]
pub enum StepKind {
    Next,
    Halt,
    Revert,
    Fail,
}

/// The effect of one instruction: the next state, or the error.
pub ghost struct TvmStep {
    pub kind: StepKind,
    pub state: TvmState,
    pub err: VMError,
}

/// The word built from bytes by or-ing byte `i` in at bit `8 i` (shift
/// amounts wrap at 128).
pub open spec fn or_word(s: Seq<u8>) -> u128
    decreases s.len(),
{
    if s.len() == 0 {
        0
    } else {
        or_word(s.drop_last()) | (s.last() as u128).wrapping_shl(((s.len() - 1) * 8) as u32)
    }
}

/// Whether an instruction pops two words and pushes `bin_value`.
pub open spec fn is_binary_op(op: OpCode) -> bool {
    match op {
        OpCode::ADD | OpCode::SUB | OpCode::MUL | OpCode::DIV | OpCode::MOD | OpCode::AND | OpCode::OR
        | OpCode::XOR | OpCode::SHL | OpCode::SHR | OpCode::EQ | OpCode::NE | OpCode::LT | OpCode::GT
        | OpCode::LE | OpCode::GE => true,
        _ => false,
    }
}

/// The result of a two-word instruction on `a` (below) and `b` (top).
pub open spec fn bin_value(op: OpCode, a: u128, b: u128) -> u128 {
    match op {
        OpCode::ADD => a.wrapping_add(b),
        OpCode::SUB => a.wrapping_sub(b),
        OpCode::MUL => a.wrapping_mul(b),
        OpCode::DIV => if b == 0 { 0 } else { a / b },
        OpCode::MOD => if b == 0 { 0 } else { a % b },
        OpCode::AND => a & b,
        OpCode::OR => a | b,
        OpCode::XOR => a ^ b,
        OpCode::SHL => a.wrapping_shl(b as u32),
        OpCode::SHR => a.wrapping_shr(b as u32),
        OpCode::EQ => if a == b { 1 } else { 0 },
        OpCode::NE => if a != b { 1 } else { 0 },
        OpCode::LT => if a < b { 1 } else { 0 },
        OpCode::GT => if a > b { 1 } else { 0 },
        OpCode::LE => if a <= b { 1 } else { 0 },
        OpCode::GE => if a >= b { 1 } else { 0 },
        _ => 0,
    }
}

/// The storage key of a slot: the slot number, as a machine word, in 8
/// little-endian bytes.
pub open spec fn slot_key(k: u128) -> Seq<u8> {
    le_bytes((k as usize) as nat, 8)
}

/// The word a slot loads: its stored bytes (at most the first 16) read
/// little-endian; 0 when nothing is stored.
pub open spec fn slot_value(storage: Map<(Seq<u8>, Seq<u8>), Seq<u8>>, contract: Address, k: u128) -> u128 {
    let key = (contract.0@, slot_key(k));
    if storage.dom().contains(key) {
        let v = storage[key];
        or_word(v.subrange(0, if v.len() < 16 { v.len() as int } else { 16 }))
    } else {
        0
    }
}

pub open spec fn fail(s: TvmState, e: VMError) -> TvmStep {
    TvmStep { kind: StepKind::Fail, state: s, err: e }
}

pub open spec fn next(s: TvmState) -> TvmStep {
    TvmStep { kind: StepKind::Next, state: s, err: VMError::OutOfGas }
}

/// One instruction at `s.pc` (which lies within `code`).
pub open spec fn tvm_step(
    g: GasSchedule,
    ctx: ExecutionContext,
    storage: Map<(Seq<u8>, Seq<u8>), Seq<u8>>,
    code: Seq<u8>,
    s: TvmState,
) -> TvmStep {
    match op_of_byte(code[s.pc]) {
        None => fail(s, VMError::InvalidOpcode),
        Some(op) => {
            let cost = op_gas(g, op);
            if s.gas < cost {
                fail(s, VMError::OutOfGas)
            } else {
                let gas = (s.gas - cost) as u64;
                let st = s.stack;
                let n = st.len();
                let moved = TvmState { pc: s.pc + 1, gas, ..s };
                if is_binary_op(op) {
                    if n < 2 {
                        fail(s, VMError::StackUnderflow)
                    } else if (op == OpCode::DIV || op == OpCode::MOD) && st[n - 1] == 0 {
                        fail(s, VMError::DivisionByZero)
                    } else {
                        next(TvmState { stack: st.take(n - 2).push(bin_value(op, st[n - 2], st[n - 1])), ..moved })
                    }
                } else {
                    match op {
                        OpCode::NOT => if n < 1 {
                            fail(s, VMError::StackUnderflow)
                        } else {
                            next(TvmState { stack: st.take(n - 1).push(!st[n - 1]), ..moved })
                        },
                        OpCode::JMP => if n < 1 {
                            fail(s, VMError::StackUnderflow)
                        } else if (st[n - 1] as usize) >= code.len() {
                            fail(s, VMError::InvalidJump)
                        } else {
                            next(TvmState { pc: (st[n - 1] as usize) + 1, stack: st.take(n - 1), ..moved })
                        },
                        OpCode::JMPIF => if n < 2 {
                            fail(s, VMError::StackUnderflow)
                        } else if st[n - 2] != 0 {
                            if (st[n - 1] as usize) >= code.len() {
                                fail(s, VMError::InvalidJump)
                            } else {
                                next(TvmState { pc: (st[n - 1] as usize) + 1, stack: st.take(n - 2), ..moved })
                            }
                        } else {
                            next(TvmState { stack: st.take(n - 2), ..moved })
                        },
                        OpCode::CALL | OpCode::RET | OpCode::CCALL => TvmStep {
                            kind: StepKind::Halt,
                            state: TvmState { ret: seq![1u8], ..moved },
                            err: VMError::OutOfGas,
                        },
                        OpCode::PUSH => if s.pc + 1 >= code.len() {
                            fail(s, VMError::InvalidOpcode)
                        } else {
                            next(TvmState { pc: s.pc + 2, stack: st.push(code[s.pc + 1] as u128), ..moved })
                        },
                        OpCode::POP => if n < 1 {
                            fail(s, VMError::StackUnderflow)
                        } else {
                            next(TvmState { stack: st.take(n - 1), ..moved })
                        },
                        OpCode::DUP => if n < 1 {
                            fail(s, VMError::StackUnderflow)
                        } else {
                            next(TvmState { stack: st.push(st[n - 1]), ..moved })
                        },
                        OpCode::SWAP => if n < 2 {
                            fail(s, VMError::StackUnderflow)
                        } else {
                            next(TvmState { stack: st.take(n - 2).push(st[n - 1]).push(st[n - 2]), ..moved })
                        },
                        OpCode::GET_SENDER => next(TvmState { stack: st.push(or_word(ctx.sender.0@)), ..moved }),
                        OpCode::GET_BLOCK_HEIGHT => next(TvmState { stack: st.push(ctx.block_height as u128), ..moved }),
                        OpCode::GET_GAS => next(TvmState { stack: st.push(gas as u128), ..moved }),
                        OpCode::SLOAD => if n < 1 {
                            fail(s, VMError::StackUnderflow)
                        } else {
                            next(
                                TvmState {
                                    stack: st.take(n - 1).push(slot_value(storage, ctx.contract_address, st[n - 1])),
                                    ..moved
                                },
                            )
                        },
                        OpCode::SSTORE => if n < 2 {
                            fail(s, VMError::StackUnderflow)
                        } else {
                            next(
                                TvmState {
                                    stack: st.take(n - 2),
                                    changes: s.changes.insert(slot_key(st[n - 2]), le_bytes(st[n - 1] as nat, 16)),
                                    ..moved
                                },
                            )
                        },
                        OpCode::REVERT => TvmStep {
                            kind: StepKind::Revert,
                            state: TvmState { ret: Seq::empty(), ..moved },
                            err: VMError::OutOfGas,
                        },
                        _ => next(moved),
                    }
                }
            }
        },
    }
}

/// Running from `s` until the code or the gas runs out, or an instruction
/// halts, reverts or fails: whether the run succeeded and its last state,
/// or the error.
pub open spec fn tvm_run(
    g: GasSchedule,
    ctx: ExecutionContext,
    storage: Map<(Seq<u8>, Seq<u8>), Seq<u8>>,
    code: Seq<u8>,
    s: TvmState,
) -> Result<(bool, TvmState), VMError>
    decreases s.gas,
{
    if !(0 <= s.pc < code.len() && s.gas > 0) {
        Ok((true, s))
    } else {
        let t = tvm_step(g, ctx, storage, code, s);
        match t.kind {
            StepKind::Next => if t.state.gas < s.gas {
                tvm_run(g, ctx, storage, code, t.state)
            } else {
                Err(VMError::OutOfGas)
            },
            StepKind::Halt => Ok((true, t.state)),
            StepKind::Revert => Ok((false, t.state)),
            StepKind::Fail => Err(t.err),
        }
    }
}

/// The state a run starts in.
pub open spec fn start_state(gas_limit: u64) -> TvmState {
    TvmState {
        pc: 0,
        stack: Seq::empty(),
        gas: gas_limit,
        changes: Map::empty(),
        ret: Seq::empty(),
    }
}

/// What the machine holds: its gas schedule, deployed code by address and
/// contract storage by address and key.
pub ghost struct TvmView {
    pub gas_schedule: GasSchedule,
    pub contracts: Map<Seq<u8>, Seq<u8>>,
    pub storage: Map<(Seq<u8>, Seq<u8>), Seq<u8>>,
}

pub struct TVM {
    gas_schedule: GasSchedule,
    contracts: Table<Address, Vec<u8>>,
    storage: Table<(Address, Vec<u8>), Vec<u8>>,
}

impl View for TVM {
    type V = TvmView;

    closed spec fn view(&self) -> TvmView {
        TvmView {
            gas_schedule: self.gas_schedule,
            contracts: self.contracts@.map_values(|v: Vec<u8>| v@),
            storage: self.storage@.map_values(|v: Vec<u8>| v@),
        }
    }
}

impl TVM {
    pub closed spec fn wf(&self) -> bool {
        self.contracts.wf() && self.storage.wf()
    }

    pub fn new() -> (r: Self)
        ensures
            r.wf(),
            r@.gas_schedule == default_vm_gas(),
            r@.contracts == Map::<Seq<u8>, Seq<u8>>::empty(),
            r@.storage == Map::<(Seq<u8>, Seq<u8>), Seq<u8>>::empty(),
    {
        let r = TVM { gas_schedule: GasSchedule::default(), contracts: Table::new(), storage: Table::new() };
        assert(r@.contracts =~= Map::<Seq<u8>, Seq<u8>>::empty());
        assert(r@.storage =~= Map::<(Seq<u8>, Seq<u8>), Seq<u8>>::empty());
        r
    }

    pub fn with_gas_schedule(self, schedule: GasSchedule) -> (r: Self)
        requires
            self.wf(),
        ensures
            r.wf(),
            r@ == (TvmView { gas_schedule: schedule, ..self@ }),
    {
        let mut s = self;
        s.gas_schedule = schedule;
        s
    }

    /// Stores (or replaces) the code deployed at `address`.
    pub fn deploy_contract(&mut self, address: Address, bytecode: Vec<u8>)
        requires
            old(self).wf(),
        ensures
            final(self).wf(),
            final(self)@ == (TvmView { contracts: old(self)@.contracts.insert(address.0@, bytecode@), ..old(self)@ }),
    {
        self.contracts.insert(address, bytecode);
        assert(self@.contracts =~= old(self)@.contracts.insert(address.0@, bytecode@));
    }

    pub fn get_contract_bytecode(&self, address: &Address) -> (r: Option<&Vec<u8>>)
        requires
            self.wf(),
        ensures
            r is Some <==> self@.contracts.dom().contains(address.0@),
            r matches Some(code) ==> code@ == self@.contracts[address.0@],
    {
        self.contracts.get(address)
    }
}

impl Default for TVM {
    fn default() -> (r: Self)
        ensures
            r.wf(),
            r@.gas_schedule == default_vm_gas(),
            r@.contracts == Map::<Seq<u8>, Seq<u8>>::empty(),
            r@.storage == Map::<(Seq<u8>, Seq<u8>), Seq<u8>>::empty(),
    {
        TVM::new()
    }
}

/// Or-s the first `n` bytes into a word, byte `i` at bit `8 i` (wrapping).
fn or_bytes(bytes: &[u8], n: usize) -> (r: u128)
    requires
        n <= bytes@.len(),
        n <= 32,
    ensures
        r == or_word(bytes@.subrange(0, n as int)),
{
    let mut val: u128 = 0;
    let mut i: usize = 0;
    while i < n
        invariant
            i <= n,
            n <= bytes@.len(),
            n <= 32,
            val == or_word(bytes@.subrange(0, i as int)),
        decreases n - i,
    {
        proof {
            assert(bytes@.subrange(0, i + 1).drop_last() =~= bytes@.subrange(0, i as int));
        }
        val = val | (bytes[i] as u128).wrapping_shl((i * 8) as u32);
        i = i + 1;
    }
    val
}

fn is_binary_exec(op: OpCode) -> (r: bool)
    ensures
        r == is_binary_op(op),
{
    match op {
        OpCode::ADD | OpCode::SUB | OpCode::MUL | OpCode::DIV | OpCode::MOD | OpCode::AND | OpCode::OR
        | OpCode::XOR | OpCode::SHL | OpCode::SHR | OpCode::EQ | OpCode::NE | OpCode::LT | OpCode::GT
        | OpCode::LE | OpCode::GE => true,
        _ => false,
    }
}

fn bin_exec(op: OpCode, a: u128, b: u128) -> (r: u128)
    requires
        !((op == OpCode::DIV || op == OpCode::MOD) && b == 0),
    ensures
        r == bin_value(op, a, b),
{
    match op {
        OpCode::ADD => a.wrapping_add(b),
        OpCode::SUB => a.wrapping_sub(b),
        OpCode::MUL => a.wrapping_mul(b),
        OpCode::DIV => a / b,
        OpCode::MOD => a % b,
        OpCode::AND => a & b,
        OpCode::OR => a | b,
        OpCode::XOR => a ^ b,
        OpCode::SHL => a.wrapping_shl(b as u32),
        OpCode::SHR => a.wrapping_shr(b as u32),
        OpCode::EQ => if a == b { 1 } else { 0 },
        OpCode::NE => if a != b { 1 } else { 0 },
        OpCode::LT => if a < b { 1 } else { 0 },
        OpCode::GT => if a > b { 1 } else { 0 },
        OpCode::LE => if a <= b { 1 } else { 0 },
        OpCode::GE => if a >= b { 1 } else { 0 },
        _ => 0,
    }
}

/// The state the exec variables stand for.
pub open spec fn state_of(pc: usize, stack: Seq<u128>, gas: u64, changes: Map<Seq<u8>, Vec<u8>>, ret: Seq<u8>) -> TvmState {
    TvmState { pc: pc as int, stack, gas, changes: bytes_map(changes), ret }
}

/// Whether `r` is what the run `run` of a call with `gas_limit` gives.
pub open spec fn result_matches(r: Result<TVMExecutionResult, VMError>, run: Result<(bool, TvmState), VMError>, gas_limit: u64) -> bool {
    match run {
        Ok((success, f)) => r matches Ok(res) && res.success == success && res.gas_used == gas_limit - f.gas
            && res.return_data@ == f.ret && res.storage_changes.wf() && bytes_map(res.storage_changes@) == f.changes,
        Err(e) => r == Err::<TVMExecutionResult, VMError>(e),
    }
}

impl TVM {
    /// Runs `bytecode` for `ctx` (see `tvm_run`): the input is not read.
    /// Every instruction must cost some gas (`schedule_positive`): with a
    /// free instruction a jump back can run forever, and this function is
    /// one that always returns. The default schedule meets this
    /// (`lemma_default_schedule_positive`); a schedule with a zero cost is
    /// left out, although the machine would end on many programs with it.
    pub fn execute(&self, ctx: ExecutionContext, bytecode: &[u8], input: Vec<u8>) -> (r: Result<TVMExecutionResult, VMError>)
        requires
            self.wf(),
            schedule_positive(self@.gas_schedule),
        ensures
            result_matches(
                r,
                tvm_run(self@.gas_schedule, ctx, self@.storage, bytecode@, start_state(ctx.gas_limit)),
                ctx.gas_limit,
            ),
    {
        let ghost g = self@.gas_schedule;
        let ghost st_map = self@.storage;
        let ghost code = bytecode@;
        let ghost target = tvm_run(g, ctx, st_map, code, start_state(ctx.gas_limit));
        let mut stack: Vec<u128> = Vec::new();
        let mut pc: usize = 0;
        let mut gas_remaining: u64 = ctx.gas_limit;
        let mut return_data: Vec<u8> = Vec::new();
        let mut storage_changes: Table<Vec<u8>, Vec<u8>> = Table::new();
        assert(state_of(pc, stack@, gas_remaining, storage_changes@, return_data@) =~= start_state(ctx.gas_limit)) by {
            assert(bytes_map(storage_changes@) =~= Map::<Seq<u8>, Seq<u8>>::empty());
        }
        loop
            invariant
                self.wf(),
                g == self@.gas_schedule,
                st_map == self@.storage,
                code == bytecode@,
                target == tvm_run(g, ctx, st_map, code, start_state(ctx.gas_limit)),
                schedule_positive(g),
                storage_changes.wf(),
                gas_remaining <= ctx.gas_limit,
                return_data@.len() == 0,
                tvm_run(g, ctx, st_map, code, state_of(pc, stack@, gas_remaining, storage_changes@, return_data@))
                    == target,
            decreases gas_remaining,
        {
            let ghost s0 = state_of(pc, stack@, gas_remaining, storage_changes@, return_data@);
            if !(pc < bytecode.len() && gas_remaining > 0) {
                return Ok(
                    TVMExecutionResult {
                        success: true,
                        gas_used: ctx.gas_limit - gas_remaining,
                        return_data,
                        storage_changes,
                    },
                );
            }
            let op = match OpCode::from_byte(bytecode[pc]) {
                Some(o) => o,
                None => {
                    return Err(VMError::InvalidOpcode);
                },
            };
            let op_cost = self.gas_schedule.get_op_gas(op);
            if gas_remaining < op_cost {
                return Err(VMError::OutOfGas);
            }
            assert(op_gas(g, op) > 0);
            gas_remaining = gas_remaining - op_cost;
            let ghost st = stack@;
            let ghost n = st.len();
            let ghost moved = TvmState { pc: s0.pc + 1, gas: gas_remaining, ..s0 };
            let ghost t = tvm_step(g, ctx, st_map, code, s0);
            if is_binary_exec(op) {
                if stack.len() < 2 {
                    return Err(VMError::StackUnderflow);
                }
                let b = stack.pop().unwrap();
                let a = stack.pop().unwrap();
                if (op == OpCode::DIV || op == OpCode::MOD) && b == 0 {
                    return Err(VMError::DivisionByZero);
                }
                stack.push(bin_exec(op, a, b));
                pc = pc + 1;
                assert(stack@ =~= st.take(n - 2).push(bin_value(op, st[n - 2], st[n - 1])));
            } else {
                match op {
                    OpCode::NOT => {
                        if stack.len() < 1 {
                            return Err(VMError::StackUnderflow);
                        }
                        let a = stack.pop().unwrap();
                        stack.push(!a);
                        pc = pc + 1;
                        assert(stack@ =~= st.take(n - 1).push(!st[n - 1]));
                    },
                    OpCode::JMP => {
                        if stack.len() < 1 {
                            return Err(VMError::StackUnderflow);
                        }
                        let target_pc = #[verifier::truncate] (stack.pop().unwrap() as usize);
                        if target_pc >= bytecode.len() {
                            return Err(VMError::InvalidJump);
                        }
                        pc = target_pc + 1;
                        assert(stack@ =~= st.take(n - 1));
                    },
                    OpCode::JMPIF => {
                        if stack.len() < 2 {
                            return Err(VMError::StackUnderflow);
                        }
                        let target_pc = #[verifier::truncate] (stack.pop().unwrap() as usize);
                        let condition = stack.pop().unwrap();
                        if condition != 0 {
                            if target_pc >= bytecode.len() {
                                return Err(VMError::InvalidJump);
                            }
                            pc = target_pc + 1;
                        } else {
                            pc = pc + 1;
                        }
                        assert(stack@ =~= st.take(n - 2));
                    },
                    OpCode::CALL | OpCode::RET | OpCode::CCALL => {
                        let ret: Vec<u8> = vec![1u8];
                        assert(ret@ =~= seq![1u8]);
                        return Ok(
                            TVMExecutionResult {
                                success: true,
                                gas_used: ctx.gas_limit - gas_remaining,
                                return_data: ret,
                                storage_changes,
                            },
                        );
                    },
                    OpCode::PUSH => {
                        if pc + 1 >= bytecode.len() {
                            return Err(VMError::InvalidOpcode);
                        }
                        let value = bytecode[pc + 1] as u128;
                        stack.push(value);
                        pc = pc + 2;
                    },
                    OpCode::POP => {
                        if stack.len() < 1 {
                            return Err(VMError::StackUnderflow);
                        }
                        stack.pop();
                        pc = pc + 1;
                        assert(stack@ =~= st.take(n - 1));
                    },
                    OpCode::DUP => {
                        if stack.len() < 1 {
                            return Err(VMError::StackUnderflow);
                        }
                        let value = stack[stack.len() - 1];
                        stack.push(value);
                        pc = pc + 1;
                    },
                    OpCode::SWAP => {
                        if stack.len() < 2 {
                            return Err(VMError::StackUnderflow);
                        }
                        let b = stack.pop().unwrap();
                        let a = stack.pop().unwrap();
                        stack.push(b);
                        stack.push(a);
                        pc = pc + 1;
                        assert(stack@ =~= st.take(n - 2).push(st[n - 1]).push(st[n - 2]));
                    },
                    OpCode::GET_SENDER => {
                        let value = or_bytes(ctx.sender.0.as_slice(), 32);
                        assert(ctx.sender.0@.subrange(0, 32) =~= ctx.sender.0@);
                        stack.push(value);
                        pc = pc + 1;
                    },
                    OpCode::GET_BLOCK_HEIGHT => {
                        stack.push(ctx.block_height as u128);
                        pc = pc + 1;
                    },
                    OpCode::GET_GAS => {
                        stack.push(gas_remaining as u128);
                        pc = pc + 1;
                    },
                    OpCode::SLOAD => {
                        if stack.len() < 1 {
                            return Err(VMError::StackUnderflow);
                        }
                        let key = #[verifier::truncate] (stack.pop().unwrap() as usize);
                        let mut key_bytes: Vec<u8> = Vec::new();
                        push_le(&mut key_bytes, key as u128, 8);
                        let storage_key = (ctx.contract_address, key_bytes);
                        let value = match self.storage.get(&storage_key) {
                            Some(v) => {
                                let m = if v.len() < 16 {
                                    v.len()
                                } else {
                                    16
                                };
                                or_bytes(v.as_slice(), m)
                            },
                            None => 0,
                        };
                        stack.push(value);
                        pc = pc + 1;
                        assert(stack@ =~= st.take(n - 1).push(slot_value(st_map, ctx.contract_address, st[n - 1])));
                    },
                    OpCode::SSTORE => {
                        if stack.len() < 2 {
                            return Err(VMError::StackUnderflow);
                        }
                        let value = stack.pop().unwrap();
                        let key = #[verifier::truncate] (stack.pop().unwrap() as usize);
                        let mut key_bytes: Vec<u8> = Vec::new();
                        push_le(&mut key_bytes, key as u128, 8);
                        let mut value_bytes: Vec<u8> = Vec::new();
                        push_le(&mut value_bytes, value, 16);
                        let ghost before = storage_changes@;
                        storage_changes.insert(key_bytes, value_bytes);
                        pc = pc + 1;
                        assert(stack@ =~= st.take(n - 2));
                        assert(bytes_map(storage_changes@) =~= bytes_map(before).insert(
                            slot_key(st[n - 2]),
                            le_bytes(st[n - 1] as nat, 16),
                        ));
                    },
                    OpCode::REVERT => {
                        return Ok(
                            TVMExecutionResult {
                                success: false,
                                gas_used: ctx.gas_limit - gas_remaining,
                                return_data: Vec::new(),
                                storage_changes,
                            },
                        );
                    },
                    _ => {
                        pc = pc + 1;
                    },
                }
            }
            assert(t.kind == StepKind::Next);
            assert(t.state == state_of(pc, stack@, gas_remaining, storage_changes@, return_data@));
        }
    }
}

} // verus!

verus! {

/// A run never gives back more gas than it started with: the gas left at
/// its end is at most the gas at its start, so the gas a call reports as
/// used is at most its limit.
pub proof fn lemma_run_gas_bounded(
    g: GasSchedule,
    ctx: ExecutionContext,
    storage: Map<(Seq<u8>, Seq<u8>), Seq<u8>>,
    code: Seq<u8>,
    s: TvmState,
)
    ensures
        tvm_run(g, ctx, storage, code, s) matches Ok((_, f)) ==> f.gas <= s.gas,
    decreases s.gas,
{
    if 0 <= s.pc < code.len() && s.gas > 0 {
        let t = tvm_step(g, ctx, storage, code, s);
        assert(t.state.gas <= s.gas);
        if t.kind == StepKind::Next && t.state.gas < s.gas {
            lemma_run_gas_bounded(g, ctx, storage, code, t.state);
        }
    }
}

} // verus!
