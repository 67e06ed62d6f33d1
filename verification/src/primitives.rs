//! Shared value types of the chain: hashes, accounts, fixed-point arithmetic,
//! API and inference records.

pub use crate::kernel::{Address, Hash32};

pub mod account;
pub mod api;
pub mod arithmetic;
pub mod block;
pub mod blueprint;
pub mod blockchain;
pub mod consensus;
pub mod contracts;
pub mod economics;
pub mod governance;
pub mod system;
pub mod hash;
pub mod inference;
pub mod inference_protocol;
pub mod runtime;
pub mod storage;
pub mod traits;
pub mod transactions;
pub mod validator_discovery;
