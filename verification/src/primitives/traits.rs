//! The interfaces that runtime modules, stores and blocks implement, and
//! transaction validity.

use vstd::prelude::*;
use crate::kernel::{Address, Hash32};
use crate::primitives::runtime::{DispatchError, Transaction};

verus! {

/// Checks a transaction before it is applied.
pub trait ValidateTransaction {
    type Validation;

    fn validate_transaction(&self, transaction: &Transaction) -> Self::Validation;
}

/// Applies a transaction.
pub trait ApplyTransaction {
    type ApplyResult;

    fn apply_transaction(&mut self, transaction: &Transaction) -> Self::ApplyResult;
}

/// A runtime module with lifecycle hooks, which by default do nothing.
pub trait Module {
    fn name(&self) -> &str;

    fn on_initialize(&mut self, block_number: u64) -> Result<(), DispatchError> {
        Ok(())
    }

    fn on_finalize(&mut self, block_number: u64) -> Result<(), DispatchError> {
        Ok(())
    }

    fn on_runtime_upgrade(&mut self) -> Result<(), DispatchError> {
        Ok(())
    }
}

pub trait OnInitialize {
    fn on_initialize(block_number: u64) -> Result<(), DispatchError>;
}

pub trait OnFinalize {
    fn on_finalize(block_number: u64) -> Result<(), DispatchError>;
}

pub trait OnRuntimeUpgrade {
    fn on_runtime_upgrade() -> Result<(), DispatchError>;
}

/// A key-value store.
pub trait Store {
    fn store(&self, key: &[u8], value: &[u8]) -> Result<(), DispatchError>;

    fn load(&self, key: &[u8]) -> Result<Option<Vec<u8>>, DispatchError>;

    fn remove(&self, key: &[u8]) -> Result<(), DispatchError>;
}

/// Changes that can be committed or rolled back.
pub trait Commit {
    fn commit(&mut self) -> Result<(), DispatchError>;

    fn rollback(&mut self);
}

/// An authenticated key-value map.
pub trait MerkleTrie {
    fn root(&self) -> Hash32;

    fn get(&self, key: &[u8]) -> Option<Vec<u8>>;

    fn insert(&mut self, key: &[u8], value: &[u8]);

    fn remove(&mut self, key: &[u8]);
}

/// Something an origin can dispatch.
pub trait Dispatchable {
    fn dispatch(self, origin: Address) -> Result<(), DispatchError>;
}

#[derive(Clone, Debug)]
pub enum TransactionValidityError {
    Invalid(TransactionValidity),
    Unknown(DispatchError),
}

#[derive(Clone, Debug)]
pub enum TransactionValidity {
    Valid { priority: u64, required_tags: Vec<Vec<u8>>, provides: Vec<Vec<u8>>, longevity: u64 },
    Invalid { code: u64, message: Option<String> },
    Unknown { code: u64, message: Option<String> },
}

impl TransactionValidity {
    /// Valid, with no priority, no tags and a longevity of 64 blocks.
    pub fn valid() -> (r: Self)
        ensures
            r matches TransactionValidity::Valid { priority, required_tags, provides, longevity } && priority == 0
                && required_tags@.len() == 0 && provides@.len() == 0 && longevity == 64,
    {
        TransactionValidity::Valid { priority: 0, required_tags: Vec::new(), provides: Vec::new(), longevity: 64 }
    }

    pub fn invalid(code: u64) -> (r: Self)
        ensures
            r matches TransactionValidity::Invalid { code: c, message } && c == code && message is None,
    {
        TransactionValidity::Invalid { code, message: None }
    }

    pub fn unknown(code: u64) -> (r: Self)
        ensures
            r matches TransactionValidity::Unknown { code: c, message } && c == code && message is None,
    {
        TransactionValidity::Unknown { code, message: None }
    }
}

/// A block header.
pub trait HeaderTrait {
    type Hash;

    type Number;

    fn number(&self) -> Self::Number;

    fn hash(&self) -> Self::Hash;

    fn parent_hash(&self) -> Self::Hash;
}

/// A block of some header and transaction type.
pub trait BlockTrait {
    type Header: HeaderTrait;

    type Transaction;
}

} // verus!
