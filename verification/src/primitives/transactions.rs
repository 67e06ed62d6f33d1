//! Extended transactions: actions and their encoding, extrinsics, signed
//! extras, transaction metadata, and the events of every module.

use vstd::prelude::*;
use crate::bytes::{le_bytes, push_all, push_le, zero32, zeros32};
use crate::kernel::{Address, Hash32};
use crate::primitives::api::utf8;
use crate::primitives::runtime::Signature;

verus! {

#[derive(Debug)]
pub struct TransactionV1 {
    pub sender: Address,
    pub nonce: u64,
    pub action: TransactionAction,
    pub payload: Vec<u8>,
    pub gas_limit: u64,
    pub gas_price: u128,
    pub value: u128,
    pub signature: Option<Signature>,
}

/// The encoding of a transaction: sender, nonce, the action's encoding,
/// gas limit, gas price, value, payload length (8 bytes) and payload;
/// numbers little-endian.
pub open spec fn v1_encoding(t: TransactionV1) -> Seq<u8> {
    t.sender.0@ + le_bytes(t.nonce as nat, 8) + action_encoding(t.action) + le_bytes(t.gas_limit as nat, 8)
        + le_bytes(t.gas_price as nat, 16) + le_bytes(t.value as nat, 16) + le_bytes(t.payload@.len(), 8)
        + t.payload@
}

impl TransactionV1 {
    /// An unsigned call to the zero address with nothing attached.
    pub fn new(sender: Address) -> (r: Self)
        ensures
            r.sender == sender && r.nonce == 0,
            r.action matches TransactionAction::Call(a) && a.0@ == zeros32(),
            r.payload@.len() == 0 && r.gas_limit == 0 && r.gas_price == 0 && r.value == 0,
            r.signature is None,
    {
        TransactionV1 {
            sender,
            nonce: 0,
            action: TransactionAction::Call(Address::from_bytes(zero32())),
            payload: Vec::new(),
            gas_limit: 0,
            gas_price: 0,
            value: 0,
            signature: None,
        }
    }

    pub fn sign(&mut self, signature: Signature)
        ensures
            final(self).signature == Some(signature),
            final(self).sender == old(self).sender && final(self).nonce == old(self).nonce,
            final(self).action == old(self).action && final(self).payload == old(self).payload,
            final(self).gas_limit == old(self).gas_limit && final(self).gas_price == old(self).gas_price,
            final(self).value == old(self).value,
    {
        self.signature = Some(signature);
    }

    pub fn is_signed(&self) -> (r: bool)
        ensures
            r == self.signature is Some,
    {
        self.signature.is_some()
    }

    pub fn encode(&self) -> (r: Vec<u8>)
        ensures
            r@ == v1_encoding(*self),
    {
        let mut bytes: Vec<u8> = Vec::new();
        push_all(&mut bytes, self.sender.0.as_slice());
        push_le(&mut bytes, self.nonce as u128, 8);
        let action = self.action.encode();
        push_all(&mut bytes, action.as_slice());
        push_le(&mut bytes, self.gas_limit as u128, 8);
        push_le(&mut bytes, self.gas_price, 16);
        push_le(&mut bytes, self.value, 16);
        push_le(&mut bytes, self.payload.len() as u128, 8);
        push_all(&mut bytes, self.payload.as_slice());
        bytes
    }
}

#[derive(Debug)]
pub enum TransactionAction {
    Call(Address),
    CallReadOnly(Address),
    Create,
    Create2 { code_hash: Hash32, salt: Vec<u8> },
    Invoke { module: String, method: String },
    InvokeReadOnly { module: String, method: String },
    SubmitPrompt { model_id: Hash32, version: u32, prompt_commitment: Hash32 },
    SubmitReceipt { prompt_id: Hash32, inference_output: Vec<u8> },
    RegisterModel { shard_root: Hash32, shard_count: u32 },
    UpdateModel { model_id: Hash32, new_shard_root: Hash32 },
    CreateVault { model_id: Hash32 },
    StakeVault { vault_id: Hash32, amount: u128 },
    UnstakeVault { vault_id: Hash32, shares: u128 },
    SubmitProposal { proposal_type: u8, payload: Vec<u8> },
    Vote { proposal_id: Hash32, vote: u8 },
    Transfer(Address),
    Lock { amount: u128, duration: u64 },
    Unlock { amount: u128 },
    Batch(Vec<TransactionAction>),
}

/// The encoding of an action: a tag byte and the action's fields for calls,
/// creations and invocations (string and salt lengths little-endian, a
/// string's length cut to 32 bits); nothing for the other actions.
pub open spec fn action_encoding(a: TransactionAction) -> Seq<u8> {
    match a {
        TransactionAction::Call(addr) => seq![0x00u8] + addr.0@,
        TransactionAction::CallReadOnly(addr) => seq![0x01u8] + addr.0@,
        TransactionAction::Create => seq![0x10u8],
        TransactionAction::Create2 { code_hash, salt } => seq![0x11u8] + code_hash.0@ + le_bytes(salt@.len(), 8)
            + salt@,
        TransactionAction::Invoke { module, method } => seq![0x20u8] + le_bytes(
            (utf8(module@).len() as u32) as nat,
            4,
        ) + utf8(module@) + le_bytes((utf8(method@).len() as u32) as nat, 4) + utf8(method@),
        _ => Seq::empty(),
    }
}

impl TransactionAction {
    pub fn encode(&self) -> (r: Vec<u8>)
        ensures
            r@ == action_encoding(*self),
    {
        match self {
            TransactionAction::Call(addr) => {
                let mut bytes: Vec<u8> = vec![0x00u8];
                push_all(&mut bytes, addr.0.as_slice());
                bytes
            },
            TransactionAction::CallReadOnly(addr) => {
                let mut bytes: Vec<u8> = vec![0x01u8];
                push_all(&mut bytes, addr.0.as_slice());
                bytes
            },
            TransactionAction::Create => {
                let bytes: Vec<u8> = vec![0x10u8];
                bytes
            },
            TransactionAction::Create2 { code_hash, salt } => {
                let mut bytes: Vec<u8> = vec![0x11u8];
                push_all(&mut bytes, code_hash.0.as_slice());
                push_le(&mut bytes, salt.len() as u128, 8);
                push_all(&mut bytes, salt.as_slice());
                bytes
            },
            TransactionAction::Invoke { module, method } => {
                let mut bytes: Vec<u8> = vec![0x20u8];
                let module_bytes = module.as_str().as_bytes();
                let method_bytes = method.as_str().as_bytes();
                push_le(&mut bytes, (module_bytes.len() as u32) as u128, 4);
                push_all(&mut bytes, module_bytes);
                push_le(&mut bytes, (method_bytes.len() as u32) as u128, 4);
                push_all(&mut bytes, method_bytes);
                bytes
            },
            _ => Vec::new(),
        }
    }
}

#[derive(Debug)]
pub struct UncheckedExtrinsic {
    pub address: Address,
    pub call: TransactionAction,
    pub signature: Option<(Signature, Address)>,
    pub nonce: u64,
    pub gas_limit: u64,
    pub gas_price: u128,
    pub value: u128,
}

impl UncheckedExtrinsic {
    pub fn new(address: Address, call: TransactionAction) -> (r: Self)
        ensures
            r.address == address && r.call == call && r.signature is None,
            r.nonce == 0 && r.gas_limit == 0 && r.gas_price == 0 && r.value == 0,
    {
        UncheckedExtrinsic { address, call, signature: None, nonce: 0, gas_limit: 0, gas_price: 0, value: 0 }
    }

    pub fn sign(&mut self, signature: Signature, signer: Address)
        ensures
            final(self).signature == Some((signature, signer)),
            final(self).address == old(self).address && final(self).call == old(self).call,
            final(self).nonce == old(self).nonce && final(self).gas_limit == old(self).gas_limit,
            final(self).gas_price == old(self).gas_price && final(self).value == old(self).value,
    {
        self.signature = Some((signature, signer));
    }
}

#[derive(Debug)]
pub struct CheckedExtrinsic {
    pub signer: Address,
    pub call: TransactionAction,
    pub nonce: u64,
    pub gas_limit: u64,
    pub gas_price: u128,
    pub value: u128,
}

#[derive(Clone, Copy, Debug, PartialEq, Eq, Structural)]
pub struct SignedExtra {
    pub nonce: u64,
    pub fee: u128,
    pub tip: u128,
}

impl SignedExtra {
    pub fn new(nonce: u64) -> (r: Self)
        ensures
            r == (SignedExtra { nonce, fee: 0, tip: 0 }),
    {
        SignedExtra { nonce, fee: 0, tip: 0 }
    }
}

#[derive(Clone, Copy, Debug)]
pub struct TransactionMetadata {
    pub transaction_hash: Hash32,
    pub block_number: u64,
    pub block_hash: Hash32,
    pub transaction_index: u32,
    pub from: Address,
    pub to: Option<Address>,
    pub value: u128,
    pub fee: u128,
    pub gas_used: u64,
    pub status: TransactionStatus,
}

#[derive(Clone, Copy, Debug, PartialEq, Eq, Structural)]
pub enum TransactionStatus {
    Pending,
    InBlock,
    Finalized,
    Replaced,
    Dropped,
}

#[derive(Clone, Debug)]
pub struct EventRecord {
    pub phase: Phase,
    pub event: Event,
    pub topics: Vec<Hash32>,
}

#[derive(Clone, Copy, Debug, PartialEq, Eq, Structural)]
pub enum Phase {
    ApplyExtrinsic(u32),
    Finalization,
    Initialization,
}

#[derive(Clone, Debug)]
pub enum Event {
    System(SystemEvent),
    Balances(BalanceEvent),
    Inference(InferenceEvent),
    Contracts(ContractEvent),
    Governance(GovernanceEvent),
    Vault(VaultEvent),
}

#[derive(Clone, Debug)]
pub enum SystemEvent {
    ExtrinsicSuccess,
    ExtrinsicFailed { error: String },
    CodeUpdated,
    RuntimeUpdated,
    Stalled { block_number: u64 },
}

#[derive(Clone, Copy, Debug)]
pub enum BalanceEvent {
    Transfer { from: Address, to: Address, amount: u128 },
    Deposit { who: Address, amount: u128 },
    Withdraw { who: Address, amount: u128 },
    Locked { who: Address, amount: u128 },
    Unlocked { who: Address, amount: u128 },
    Reserved { who: Address, amount: u128 },
    Unreserved { who: Address, amount: u128 },
}

#[derive(Clone, Copy, Debug)]
pub enum InferenceEvent {
    PromptSubmitted { prompt_id: Hash32, model_id: Hash32 },
    ReceiptSubmitted { receipt_id: Hash32, prompt_id: Hash32 },
    ModelRegistered { model_id: Hash32, owner: Address },
    ModelUpdated { model_id: Hash32 },
    RevenueDistributed { prompt_id: Hash32, amount: u128 },
}

#[derive(Clone, Debug)]
pub enum ContractEvent {
    CodeStored { code_hash: Hash32 },
    ContractCreated { contract_id: Hash32, creator: Address },
    ContractCalled { contract_id: Hash32, caller: Address },
    ContractEmitted { contract_id: Hash32, data: Vec<u8> },
}

#[derive(Clone, Copy, Debug)]
pub enum GovernanceEvent {
    ProposalSubmitted { proposal_id: Hash32 },
    VoteCast { proposal_id: Hash32, voter: Address, vote: u8 },
    ProposalApproved { proposal_id: Hash32 },
    ProposalRejected { proposal_id: Hash32 },
    ProposalExecuted { proposal_id: Hash32 },
}

#[derive(Clone, Copy, Debug)]
pub enum VaultEvent {
    VaultCreated { vault_id: Hash32, model_id: Hash32 },
    Staked { vault_id: Hash32, staker: Address, amount: u128 },
    Unstaked { vault_id: Hash32, staker: Address, amount: u128 },
    RewardPaid { vault_id: Hash32, staker: Address, amount: u128 },
}

} // verus!
