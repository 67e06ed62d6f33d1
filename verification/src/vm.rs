//! The contract virtual machine: the contract language's syntax tree and
//! the stack machine that runs bytecode.

use vstd::prelude::*;

pub mod tcl;
pub mod tvm;

verus! {

#[derive(Clone, Copy, Debug, PartialEq, Eq, Structural)]
pub enum VMError {
    OutOfGas,
    InvalidOpcode,
    StackOverflow,
    StackUnderflow,
    MemoryOutOfBounds,
    DivisionByZero,
    InvalidJump,
    Reverted,
    ContractNotFound,
    StorageError,
}

} // verus!
