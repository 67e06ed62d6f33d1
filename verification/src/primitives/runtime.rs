//! Runtime records: headers and their hashes, transactions and their
//! encoding, receipts, logs, digests, dispatch errors and blocks.

use vstd::prelude::*;
use crate::bytes::{le_bytes, push_all, push_le, zeros32, zero32};
use crate::digest::{sha256, sha256_spec};
use crate::kernel::{Address, Hash32, empty_hash32};

verus! {

/// The bytes of a signature.
#[derive(Clone, Debug)]
pub struct Signature(pub Vec<u8>);

#[derive(Clone, Debug)]
pub struct Header {
    pub parent_hash: Hash32,
    pub number: u64,
    pub state_root: Hash32,
    pub transaction_root: Hash32,
    pub receipts_root: Hash32,
    pub digest: Digest,
    pub timestamp: u64,
    pub validator_set_id: u64,
}

/// The encoding of a header that its hash digests: the parent hash, the
/// number, the three roots, the timestamp and the validator set id (numbers
/// as 8 little-endian bytes); the digest is left out.
pub open spec fn header_encoding(h: Header) -> Seq<u8> {
    h.parent_hash.0@ + le_bytes(h.number as nat, 8) + h.state_root.0@ + h.transaction_root.0@ + h.receipts_root.0@
        + le_bytes(h.timestamp as nat, 8) + le_bytes(h.validator_set_id as nat, 8)
}

impl Header {
    pub fn new(parent_hash: Hash32, number: u64, state_root: Hash32, transaction_root: Hash32) -> (r: Self)
        ensures
            r.parent_hash == parent_hash && r.number == number,
            r.state_root == state_root && r.transaction_root == transaction_root,
            r.receipts_root == empty_hash32(),
            r.digest.logs@.len() == 0,
            r.timestamp == 0 && r.validator_set_id == 0,
    {
        Header {
            parent_hash,
            number,
            state_root,
            transaction_root,
            receipts_root: Hash32::empty(),
            digest: Digest::new(),
            timestamp: 0,
            validator_set_id: 0,
        }
    }

    /// The digest of the header's encoding.
    pub fn hash(&self) -> (r: Hash32)
        ensures
            r.0@ == sha256_spec(header_encoding(*self)),
    {
        let bytes = self.encode();
        Hash32(sha256(bytes.as_slice()))
    }

    fn encode(&self) -> (r: Vec<u8>)
        ensures
            r@ == header_encoding(*self),
    {
        let mut bytes: Vec<u8> = Vec::new();
        push_all(&mut bytes, self.parent_hash.0.as_slice());
        push_le(&mut bytes, self.number as u128, 8);
        push_all(&mut bytes, self.state_root.0.as_slice());
        push_all(&mut bytes, self.transaction_root.0.as_slice());
        push_all(&mut bytes, self.receipts_root.0.as_slice());
        push_le(&mut bytes, self.timestamp as u128, 8);
        push_le(&mut bytes, self.validator_set_id as u128, 8);
        bytes
    }
}

impl Default for Header {
    fn default() -> (r: Self)
        ensures
            r.parent_hash == empty_hash32() && r.number == 0,
            r.state_root == empty_hash32() && r.transaction_root == empty_hash32(),
            r.receipts_root == empty_hash32(),
            r.digest.logs@.len() == 0,
            r.timestamp == 0 && r.validator_set_id == 0,
    {
        Header::new(Hash32::empty(), 0, Hash32::empty(), Hash32::empty())
    }
}

#[derive(Clone, Debug)]
pub struct Transaction {
    pub sender: Address,
    pub recipient: Option<Address>,
    pub nonce: u64,
    pub action: TransactionAction,
    pub payload: Vec<u8>,
    pub gas_limit: u64,
    pub gas_price: u64,
    pub value: u128,
    pub signature: Option<Signature>,
}

#[derive(Clone, Debug)]
pub enum TransactionAction {
    Call(Address),
    Create,
    Invoke { module: String, method: String },
}

/// The encoding of a transaction: sender, recipient (zeros when none),
/// nonce, gas limit, gas price, value, payload length (8 bytes) and
/// payload; numbers little-endian.
pub open spec fn tx_encoding(t: Transaction) -> Seq<u8> {
    t.sender.0@ + match t.recipient {
        Some(a) => a.0@,
        None => zeros32(),
    } + le_bytes(t.nonce as nat, 8) + le_bytes(t.gas_limit as nat, 8) + le_bytes(t.gas_price as nat, 8) + le_bytes(
        t.value as nat,
        16,
    ) + le_bytes(t.payload@.len(), 8) + t.payload@
}

impl Transaction {
    /// An unsigned call to the zero address with nothing attached.
    pub fn new(sender: Address) -> (r: Self)
        ensures
            r.sender == sender && r.recipient is None && r.nonce == 0,
            r.action matches TransactionAction::Call(a) && a.0@ == zeros32(),
            r.payload@.len() == 0 && r.gas_limit == 0 && r.gas_price == 0 && r.value == 0,
            r.signature is None,
    {
        Transaction {
            sender,
            recipient: None,
            nonce: 0,
            action: TransactionAction::Call(Address::from_bytes(zero32())),
            payload: Vec::new(),
            gas_limit: 0,
            gas_price: 0,
            value: 0,
            signature: None,
        }
    }

    pub fn signed(self, signature: Signature) -> (r: Self)
        ensures
            r == (Transaction { signature: Some(signature), ..self }),
    {
        Transaction { signature: Some(signature), ..self }
    }

    pub fn is_signed(&self) -> (r: bool)
        ensures
            r == self.signature is Some,
    {
        self.signature.is_some()
    }

    pub fn encode(&self) -> (r: Vec<u8>)
        ensures
            r@ == tx_encoding(*self),
    {
        let mut bytes: Vec<u8> = Vec::new();
        push_all(&mut bytes, self.sender.0.as_slice());
        match &self.recipient {
            Some(recipient) => push_all(&mut bytes, recipient.0.as_slice()),
            None => {
                let z = zero32();
                push_all(&mut bytes, z.as_slice());
            },
        }
        push_le(&mut bytes, self.nonce as u128, 8);
        push_le(&mut bytes, self.gas_limit as u128, 8);
        push_le(&mut bytes, self.gas_price as u128, 8);
        push_le(&mut bytes, self.value, 16);
        push_le(&mut bytes, self.payload.len() as u128, 8);
        push_all(&mut bytes, self.payload.as_slice());
        bytes
    }

    /// The digest of the encoding.
    pub fn hash(&self) -> (r: Hash32)
        ensures
            r.0@ == sha256_spec(tx_encoding(*self)),
    {
        let bytes = self.encode();
        Hash32(sha256(bytes.as_slice()))
    }
}

#[derive(Clone, Debug)]
pub struct Receipt {
    pub transaction_hash: Hash32,
    pub transaction_index: u32,
    pub block_hash: Hash32,
    pub block_number: u64,
    pub gas_used: u64,
    pub logs: Vec<Log>,
    pub outcome: TransactionOutcome,
}

#[derive(Clone, Debug)]
pub enum TransactionOutcome {
    Success,
    Failure { error: DispatchError },
}

impl Default for TransactionOutcome {
    fn default() -> (r: Self)
        ensures
            r is Success,
    {
        TransactionOutcome::Success
    }
}

#[derive(Clone, Debug)]
pub struct Log {
    pub address: Address,
    pub topics: Vec<Hash32>,
    pub data: Vec<u8>,
}

/// The items a block header carries for consensus and the runtime.
#[derive(Clone, Debug)]
pub struct Digest {
    pub logs: Vec<DigestItem>,
}

impl Digest {
    pub fn new() -> (r: Self)
        ensures
            r.logs@.len() == 0,
    {
        Digest { logs: Vec::new() }
    }

    pub fn push(&mut self, item: DigestItem)
        ensures
            final(self).logs@ == old(self).logs@.push(item),
    {
        self.logs.push(item);
    }
}

impl Default for Digest {
    fn default() -> (r: Self)
        ensures
            r.logs@.len() == 0,
    {
        Digest::new()
    }
}

#[derive(Clone, Debug)]
pub enum DigestItem {
    PreRuntime(Hash32, Vec<u8>),
    Runtime(Hash32, Vec<u8>),
    Seal(Hash32, Vec<u8>),
    Consensus(Hash32, Vec<u8>),
    ChangesTrieRoot(Hash32),
}

#[derive(Clone, Debug)]
pub struct DispatchError {
    pub module: Option<u8>,
    pub error: u8,
    pub message: Option<String>,
}

impl DispatchError {
    pub fn new(module: Option<u8>, error: u8) -> (r: Self)
        ensures
            r.module == module && r.error == error && r.message is None,
    {
        DispatchError { module, error, message: None }
    }

    pub fn with_message(self, message: &str) -> (r: Self)
        ensures
            r.module == self.module && r.error == self.error,
            r.message matches Some(m) && m@ == message@,
    {
        DispatchError { message: Some(message.to_owned()), ..self }
    }

    pub fn bad_origin() -> (r: Self)
        ensures
            r.module is None && r.error == 1,
            r.message matches Some(m) && m@ == "Bad origin"@,
    {
        proof {
            reveal_strlit("Bad origin");
        }
        DispatchError { module: None, error: 1, message: Some("Bad origin".to_string()) }
    }

    pub fn module_not_found(index: u8) -> (r: Self)
        ensures
            r.module == Some(index) && r.error == 0,
            r.message matches Some(m) && m@ == "Module not found"@,
    {
        proof {
            reveal_strlit("Module not found");
        }
        DispatchError { module: Some(index), error: 0, message: Some("Module not found".to_string()) }
    }
}

impl Default for DispatchError {
    fn default() -> (r: Self)
        ensures
            r.module is None && r.error == 0 && r.message is None,
    {
        DispatchError { module: None, error: 0, message: None }
    }
}

#[derive(Clone, Debug)]
pub struct Block {
    pub header: Header,
    pub transactions: Vec<Transaction>,
    pub receipts: Vec<Receipt>,
}

impl Block {
    pub fn new(header: Header) -> (r: Self)
        ensures
            r.header == header,
            r.transactions@.len() == 0 && r.receipts@.len() == 0,
    {
        Block { header, transactions: Vec::new(), receipts: Vec::new() }
    }

    /// The hash of the header.
    pub fn hash(&self) -> (r: Hash32)
        ensures
            r.0@ == sha256_spec(header_encoding(self.header)),
    {
        self.header.hash()
    }
}

impl Default for Block {
    fn default() -> (r: Self)
        ensures
            r.header.number == 0 && r.header.parent_hash == empty_hash32(),
            r.transactions@.len() == 0 && r.receipts@.len() == 0,
    {
        Block::new(Header::default())
    }
}

} // verus!
