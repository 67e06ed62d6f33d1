//! Tetcore: a deterministic execution framework for intelligence
//! infrastructure. The kernel holds the state machine (accounts, consensus,
//! economics, governance, inference, contracts); the primitives hold the
//! shared value types and fixed-point arithmetic.

pub mod arith;
pub mod bytes;
pub mod digest;
pub mod hexenc;
pub mod table;
pub mod kernel;
pub mod primitives;
pub mod node;
pub mod runtime;
pub mod vm;
