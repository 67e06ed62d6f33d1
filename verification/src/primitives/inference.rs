//! Inference records: models with their pricing and revenue split, prompts,
//! receipts, shard metadata, and inference requests and responses.

use vstd::prelude::*;
use crate::bytes::{le_bytes, push_all, push_le};
use crate::digest::{sha256, sha256_spec};
use crate::kernel::{Address, Hash32};
use crate::kernel::ifp::checked_split_total;

verus! {

#[derive(Clone, Copy, Debug)]
pub struct Model {
    pub model_id: Hash32,
    pub owner: Address,
    pub version: u32,
    pub shard_root: Hash32,
    pub shard_count: u32,
    pub state: ModelState,
    pub pricing_policy: PricingPolicy,
    pub revenue_split: RevenueSplit,
    pub created_at: u64,
    pub updated_at: u64,
}

impl Model {
    /// A registered first version whose id digests its owner, the version
    /// number 1 and its shard root.
    pub fn new(
        owner: Address,
        shard_root: Hash32,
        shard_count: u32,
        pricing_policy: PricingPolicy,
        revenue_split: RevenueSplit,
    ) -> (r: Self)
        ensures
            r.model_id.0@ == sha256_spec(owner.0@ + le_bytes(1, 4) + shard_root.0@),
            r.owner == owner && r.version == 1 && r.shard_root == shard_root && r.shard_count == shard_count,
            r.state == ModelState::Registered,
            r.pricing_policy == pricing_policy && r.revenue_split == revenue_split,
            r.created_at == 0 && r.updated_at == 0,
    {
        let mut input: Vec<u8> = Vec::new();
        push_all(&mut input, owner.0.as_slice());
        push_le(&mut input, 1, 4);
        push_all(&mut input, shard_root.0.as_slice());
        let model_id = sha256(input.as_slice());
        Model {
            model_id: Hash32(model_id),
            owner,
            version: 1,
            shard_root,
            shard_count,
            state: ModelState::Registered,
            pricing_policy,
            revenue_split,
            created_at: 0,
            updated_at: 0,
        }
    }
}

#[derive(Clone, Copy, Debug, PartialEq, Eq, Structural)]
pub enum ModelState {
    Registered,
    Active,
    Paused,
    Deprecated,
    Disabled,
}

impl Default for ModelState {
    fn default() -> (r: Self)
        ensures
            r == ModelState::Registered,
    {
        ModelState::Registered
    }
}

impl ModelState {
    pub fn is_active(&self) -> (r: bool)
        ensures
            r == (*self == ModelState::Active),
    {
        match self {
            ModelState::Active => true,
            _ => false,
        }
    }

    /// Active, paused and deprecated models take prompts.
    pub fn can_receive_prompts(&self) -> (r: bool)
        ensures
            r == (*self == ModelState::Active || *self == ModelState::Paused || *self == ModelState::Deprecated),
    {
        match self {
            ModelState::Active | ModelState::Paused | ModelState::Deprecated => true,
            _ => false,
        }
    }
}

#[derive(Clone, Copy, Debug, PartialEq, Eq, Structural)]
pub struct PricingPolicy {
    pub mode: PricingMode,
    pub base_price: u128,
    pub per_token_price: u128,
    pub complexity_multiplier: u32,
    pub latency_multiplier: u32,
}

impl Default for PricingPolicy {
    fn default() -> (r: Self)
        ensures
            r == (PricingPolicy {
                mode: PricingMode::Owner,
                base_price: 0,
                per_token_price: 0,
                complexity_multiplier: 100,
                latency_multiplier: 100,
            }),
    {
        PricingPolicy {
            mode: PricingMode::Owner,
            base_price: 0,
            per_token_price: 0,
            complexity_multiplier: 100,
            latency_multiplier: 100,
        }
    }
}

#[derive(Clone, Copy, Debug, PartialEq, Eq, Structural)]
pub enum PricingMode {
    Owner,
    Market,
    Hybrid,
}

/// How inference revenue is shared, in basis points.
#[derive(Clone, Copy, Debug, PartialEq, Eq, Structural)]
pub struct RevenueSplit {
    pub operator_basis_points: u16,
    pub owner_basis_points: u16,
    pub shard_provider_basis_points: u16,
    pub validator_basis_points: u16,
    pub treasury_basis_points: u16,
}

impl RevenueSplit {
    /// A split whose shares add up to 10000 basis points; any other is
    /// refused.
    pub fn new(operator: u16, owner: u16, shard_provider: u16, validator: u16, treasury: u16) -> (r: Result<
        Self,
        &'static str,
    >)
        ensures
            r is Ok <==> operator + owner + shard_provider + validator + treasury == 10000,
            r matches Ok(s) ==> s == (RevenueSplit {
                operator_basis_points: operator,
                owner_basis_points: owner,
                shard_provider_basis_points: shard_provider,
                validator_basis_points: validator,
                treasury_basis_points: treasury,
            }),
            r matches Err(e) ==> e@ == "Revenue split must sum to 10000 basis points"@,
    {
        let total = checked_split_total(operator, owner, shard_provider, validator, treasury);
        match total {
            Some(t) => {
                if t != 10000 {
                    return Err("Revenue split must sum to 10000 basis points");
                }
            },
            None => {
                return Err("Revenue split must sum to 10000 basis points");
            },
        }
        Ok(
            RevenueSplit {
                operator_basis_points: operator,
                owner_basis_points: owner,
                shard_provider_basis_points: shard_provider,
                validator_basis_points: validator,
                treasury_basis_points: treasury,
            },
        )
    }

    /// 70% operator, 20% owner, 5% shard providers, 4% validators, 1%
    /// treasury.
    pub fn default_model() -> (r: Self)
        ensures
            r == (RevenueSplit {
                operator_basis_points: 7000,
                owner_basis_points: 2000,
                shard_provider_basis_points: 500,
                validator_basis_points: 400,
                treasury_basis_points: 100,
            }),
    {
        RevenueSplit {
            operator_basis_points: 7000,
            owner_basis_points: 2000,
            shard_provider_basis_points: 500,
            validator_basis_points: 400,
            treasury_basis_points: 100,
        }
    }
}

#[derive(Clone, Debug)]
pub struct Prompt {
    pub prompt_id: Hash32,
    pub model_id: Hash32,
    pub version: u32,
    pub sender: Address,
    pub prompt_data: Vec<u8>,
    pub max_gas: u64,
    pub escrow_amount: u128,
    pub created_at: u64,
    pub expires_at: u64,
}

/// The bytes digested into a prompt's id.
pub open spec fn prompt_id_input(model_id: Hash32, version: u32, sender: Address, data: Seq<u8>, escrow: u128) -> Seq<u8> {
    model_id.0@ + le_bytes(version as nat, 4) + sender.0@ + data + le_bytes(escrow as nat, 16)
}

impl Prompt {
    pub fn new(
        model_id: Hash32,
        version: u32,
        sender: Address,
        prompt_data: Vec<u8>,
        max_gas: u64,
        escrow_amount: u128,
    ) -> (r: Self)
        ensures
            r.prompt_id.0@ == sha256_spec(prompt_id_input(model_id, version, sender, prompt_data@, escrow_amount)),
            r.model_id == model_id && r.version == version && r.sender == sender,
            r.prompt_data == prompt_data && r.max_gas == max_gas && r.escrow_amount == escrow_amount,
            r.created_at == 0 && r.expires_at == 0,
    {
        let mut input: Vec<u8> = Vec::new();
        push_all(&mut input, model_id.0.as_slice());
        push_le(&mut input, version as u128, 4);
        push_all(&mut input, sender.0.as_slice());
        push_all(&mut input, prompt_data.as_slice());
        push_le(&mut input, escrow_amount, 16);
        let prompt_id = sha256(input.as_slice());
        Prompt {
            prompt_id: Hash32(prompt_id),
            model_id,
            version,
            sender,
            prompt_data,
            max_gas,
            escrow_amount,
            created_at: 0,
            expires_at: 0,
        }
    }
}

#[derive(Clone, Debug)]
pub struct Receipt {
    pub receipt_id: Hash32,
    pub prompt_id: Hash32,
    pub model_id: Hash32,
    pub operator: Address,
    pub inference_output: Vec<u8>,
    pub gas_used: u64,
    pub fee: u128,
    pub created_at: u64,
    pub validated: bool,
}

impl Receipt {
    /// An unvalidated receipt whose id digests the prompt, the operator and
    /// the output.
    pub fn new(
        prompt_id: Hash32,
        model_id: Hash32,
        operator: Address,
        inference_output: Vec<u8>,
        gas_used: u64,
        fee: u128,
    ) -> (r: Self)
        ensures
            r.receipt_id.0@ == sha256_spec(prompt_id.0@ + operator.0@ + inference_output@),
            r.prompt_id == prompt_id && r.model_id == model_id && r.operator == operator,
            r.inference_output == inference_output && r.gas_used == gas_used && r.fee == fee,
            r.created_at == 0 && !r.validated,
    {
        let mut input: Vec<u8> = Vec::new();
        push_all(&mut input, prompt_id.0.as_slice());
        push_all(&mut input, operator.0.as_slice());
        push_all(&mut input, inference_output.as_slice());
        let receipt_id = sha256(input.as_slice());
        Receipt {
            receipt_id: Hash32(receipt_id),
            prompt_id,
            model_id,
            operator,
            inference_output,
            gas_used,
            fee,
            created_at: 0,
            validated: false,
        }
    }
}

#[derive(Clone, Debug)]
pub struct ShardCommitment {
    pub shard_index: u32,
    pub shard_hash: Hash32,
    pub merkle_proof: Vec<u8>,
}

#[derive(Clone, Copy, Debug)]
pub struct ShardMetadata {
    pub model_id: Hash32,
    pub shard_count: u32,
    pub shard_root: Hash32,
    pub shard_size_bytes: u64,
    pub created_at: u64,
}

#[derive(Clone, Debug)]
pub struct InferenceRequest {
    pub model_id: Hash32,
    pub version: u32,
    pub prompt: Vec<u8>,
    pub max_gas: u64,
    pub callback: Option<Address>,
}

#[derive(Clone, Debug)]
pub struct InferenceResponse {
    pub request_id: Hash32,
    pub output: Vec<u8>,
    pub gas_used: u64,
    pub fee: u128,
}

} // verus!
