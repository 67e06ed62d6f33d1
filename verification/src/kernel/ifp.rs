//! The inference protocol: model registration, prompt escrow, receipts,
//! validation and revenue distribution.

use vstd::prelude::*;
use crate::arith::{sat_mul128, saturating_mul_u128};
use crate::bytes::{push_all, push_le, le_bytes, bytes32_eq};
use crate::digest::{sha256, sha256_spec};
use crate::kernel::{Address, Hash32};
use crate::table::{Table, TableKey, keys_where, count_where, lemma_count_where};

verus! {

pub const DEFAULT_PROMPT_TIMEOUT_BLOCKS: u64 = 100;

pub const MAX_OUTPUT_TOKENS: u32 = 8192;

pub const MIN_ESCROW_AMOUNT: u128 = 1000;

/// The lifecycle of a model.
#[derive(Clone, Copy, Debug, PartialEq, Eq, Structural)]
pub enum ModelState {
    Registered,
    Active,
    Paused,
    Deprecated,
    Disabled,
}

impl ModelState {
    pub fn is_active(&self) -> (r: bool)
        ensures
            r == (*self == ModelState::Active),
    {
        match self {
            ModelState::Active => true,
            _ => false,
        }
    }

    /// Active, paused and deprecated models take prompts.
    pub fn can_receive_prompts(&self) -> (r: bool)
        ensures
            r == (*self == ModelState::Active || *self == ModelState::Paused || *self == ModelState::Deprecated),
    {
        match self {
            ModelState::Active | ModelState::Paused | ModelState::Deprecated => true,
            _ => false,
        }
    }
}

/// Who sets the price of an inference.
#[derive(Clone, Copy, Debug, PartialEq, Eq, Structural)]
pub enum PricingMode {
    Owner,
    Market,
    Hybrid,
}

pub open spec fn pricing_mode_code(m: PricingMode) -> u8 {
    match m {
        PricingMode::Owner => 0,
        PricingMode::Market => 1,
        PricingMode::Hybrid => 2,
    }
}

impl PricingMode {
    pub fn from_u8(v: u8) -> (r: Option<Self>)
        ensures
            v <= 2 <==> r is Some,
            r matches Some(m) ==> pricing_mode_code(m) == v,
    {
        match v {
            0 => Some(PricingMode::Owner),
            1 => Some(PricingMode::Market),
            2 => Some(PricingMode::Hybrid),
            _ => None,
        }
    }

    pub fn to_u8(self) -> (r: u8)
        ensures
            r == pricing_mode_code(self),
    {
        match self {
            PricingMode::Owner => 0,
            PricingMode::Market => 1,
            PricingMode::Hybrid => 2,
        }
    }
}

/// Decoding the code of a pricing mode gives that mode back.
pub proof fn lemma_pricing_mode_roundtrip(m: PricingMode)
    ensures
        pricing_mode_code(m) <= 2,
        forall|n: PricingMode| pricing_mode_code(n) == pricing_mode_code(m) ==> n == m,
{
}

/// How a prompt reaches an operator.
#[derive(Clone, Copy, Debug, PartialEq, Eq, Structural)]
pub enum RelayMode {
    Direct,
    AnyOperator,
    PreferredOperator,
}

pub open spec fn relay_mode_code(m: RelayMode) -> u8 {
    match m {
        RelayMode::Direct => 0,
        RelayMode::AnyOperator => 1,
        RelayMode::PreferredOperator => 2,
    }
}

impl RelayMode {
    pub fn from_u8(v: u8) -> (r: Option<Self>)
        ensures
            v <= 2 <==> r is Some,
            r matches Some(m) ==> relay_mode_code(m) == v,
    {
        match v {
            0 => Some(RelayMode::Direct),
            1 => Some(RelayMode::AnyOperator),
            2 => Some(RelayMode::PreferredOperator),
            _ => None,
        }
    }

    pub fn to_u8(self) -> (r: u8)
        ensures
            r == relay_mode_code(self),
    {
        match self {
            RelayMode::Direct => 0,
            RelayMode::AnyOperator => 1,
            RelayMode::PreferredOperator => 2,
        }
    }
}

/// Decoding the code of a relay mode gives that mode back.
pub proof fn lemma_relay_mode_roundtrip(m: RelayMode)
    ensures
        relay_mode_code(m) <= 2,
        forall|n: RelayMode| relay_mode_code(n) == relay_mode_code(m) ==> n == m,
{
}

/// Where a prompt stands.
#[derive(Clone, Copy, Debug, PartialEq, Eq, Structural)]
pub enum PromptStatus {
    Pending,
    Settled,
    Expired,
    Disputed,
    Cancelled,
}

impl PromptStatus {
    pub fn is_active(&self) -> (r: bool)
        ensures
            r == (*self == PromptStatus::Pending),
    {
        match self {
            PromptStatus::Pending => true,
            _ => false,
        }
    }
}

/// How a model prices an inference.
#[derive(Clone, Copy, Debug)]
pub struct PricingPolicy {
    pub mode: PricingMode,
    pub base_price: u128,
    pub per_token_price: u128,
    pub complexity_multiplier: u32,
    pub latency_multiplier: u32,
}

impl Default for PricingPolicy {
    fn default() -> (r: Self)
        ensures
            r == (PricingPolicy {
                mode: PricingMode::Owner,
                base_price: 0,
                per_token_price: 0,
                complexity_multiplier: 100,
                latency_multiplier: 100,
            }),
    {
        PricingPolicy {
            mode: PricingMode::Owner,
            base_price: 0,
            per_token_price: 0,
            complexity_multiplier: 100,
            latency_multiplier: 100,
        }
    }
}

/// The token cost of a request: all tokens at the per-token price, saturating.
pub open spec fn token_cost_spec(p: PricingPolicy, input_tokens: u32, output_tokens: u32) -> u128 {
    sat_mul128((input_tokens + output_tokens) as u128, p.per_token_price)
}

/// Whether `compute_price` can scale the token cost without overflow.
pub open spec fn price_computable(p: PricingPolicy, input_tokens: u32, output_tokens: u32) -> bool {
    p.complexity_multiplier * token_cost_spec(p, input_tokens, output_tokens) <= u128::MAX
}

/// The price: the base price plus the token cost scaled by the complexity
/// multiplier (in percent), saturating.
pub open spec fn price_spec(p: PricingPolicy, input_tokens: u32, output_tokens: u32) -> u128 {
    p.base_price.saturating_add(
        ((p.complexity_multiplier * token_cost_spec(p, input_tokens, output_tokens)) / 100) as u128,
    )
}

impl PricingPolicy {
    pub fn compute_price(&self, input_tokens: u32, output_tokens: u32) -> (r: u128)
        requires
            price_computable(*self, input_tokens, output_tokens),
        ensures
            r == price_spec(*self, input_tokens, output_tokens),
    {
        let base = self.base_price;
        let token_cost = saturating_mul_u128(
            (input_tokens as u128).saturating_add(output_tokens as u128),
            self.per_token_price,
        );
        let complexity = (self.complexity_multiplier as u128) * token_cost / 100;
        base.saturating_add(complexity)
    }
}

/// How a fee is shared, in basis points.
#[derive(Clone, Copy, Debug, PartialEq, Eq, Structural)]
pub struct RevenueSplit {
    pub operator_bp: u16,
    pub owner_bp: u16,
    pub shard_provider_bp: u16,
    pub validator_bp: u16,
    pub treasury_bp: u16,
}

/// Whether the shares of a split add up to 10000 basis points.
pub open spec fn split_is_whole(s: RevenueSplit) -> bool {
    s.operator_bp + s.owner_bp + s.shard_provider_bp + s.validator_bp + s.treasury_bp == 10000
}

/// Adds the five shares with checked 16-bit additions, as the split rules do.
pub(crate) fn checked_split_total(operator: u16, owner: u16, shard_provider: u16, validator: u16, treasury: u16) -> (r: Option<u16>)
    ensures
        r == Some(10000u16) <==> operator + owner + shard_provider + validator + treasury == 10000,
{
    match operator.checked_add(owner) {
        Some(a) => match a.checked_add(shard_provider) {
            Some(b) => match b.checked_add(validator) {
                Some(c) => c.checked_add(treasury),
                None => None,
            },
            None => None,
        },
        None => None,
    }
}

impl RevenueSplit {
    /// A split whose shares add up to 10000 basis points; any other is refused.
    pub fn new(operator: u16, owner: u16, shard_provider: u16, validator: u16, treasury: u16) -> (r: Result<
        Self,
        &'static str,
    >)
        ensures
            r is Ok <==> operator + owner + shard_provider + validator + treasury == 10000,
            r matches Ok(s) ==> s == (RevenueSplit {
                operator_bp: operator,
                owner_bp: owner,
                shard_provider_bp: shard_provider,
                validator_bp: validator,
                treasury_bp: treasury,
            }),
            r matches Err(e) ==> e@ == "Revenue split must sum to 10000 basis points"@,
    {
        let total = checked_split_total(operator, owner, shard_provider, validator, treasury);
        match total {
            Some(t) => {
                if t != 10000 {
                    return Err("Revenue split must sum to 10000 basis points");
                }
            },
            None => {
                return Err("Revenue split must sum to 10000 basis points");
            },
        }
        Ok(
            RevenueSplit {
                operator_bp: operator,
                owner_bp: owner,
                shard_provider_bp: shard_provider,
                validator_bp: validator,
                treasury_bp: treasury,
            },
        )
    }

    /// The protocol's split: 70% operator, 20% owner, 5% shard providers,
    /// 4% validators, 1% treasury.
    pub fn default_ifp() -> (r: Self)
        ensures
            r == (RevenueSplit {
                operator_bp: 7000,
                owner_bp: 2000,
                shard_provider_bp: 500,
                validator_bp: 400,
                treasury_bp: 100,
            }),
            split_is_whole(r),
    {
        RevenueSplit { operator_bp: 7000, owner_bp: 2000, shard_provider_bp: 500, validator_bp: 400, treasury_bp: 100 }
    }
}

/// A registered model.
#[derive(Clone, Copy, Debug)]
pub struct ModelInfo {
    pub model_id: Hash32,
    pub owner: Address,
    pub version: u32,
    pub shard_root: Hash32,
    pub shard_count: u32,
    pub state: ModelState,
    pub pricing_policy: PricingPolicy,
    pub revenue_split: RevenueSplit,
    pub created_at: u64,
    pub updated_at: u64,
    pub total_prompts: u64,
    pub total_revenue: u128,
}

/// The bytes that identify a model: its owner, version 1 (little-endian)
/// and its shard root.
pub open spec fn model_id_input(owner: Address, shard_root: Hash32) -> Seq<u8> {
    owner.0@ + le_bytes(1, 4) + shard_root.0@
}

/// A freshly registered model.
pub open spec fn new_model(
    owner: Address,
    shard_root: Hash32,
    shard_count: u32,
    pricing_policy: PricingPolicy,
    revenue_split: RevenueSplit,
) -> ModelInfo {
    ModelInfo {
        model_id: Hash32(arbitrary()),
        owner,
        version: 1,
        shard_root,
        shard_count,
        state: ModelState::Registered,
        pricing_policy,
        revenue_split,
        created_at: 0,
        updated_at: 0,
        total_prompts: 0,
        total_revenue: 0,
    }
}

impl ModelInfo {
    /// A registered model at version 1; its identifier is the SHA-256
    /// digest of `model_id_input`.
    pub fn new(
        owner: Address,
        shard_root: Hash32,
        shard_count: u32,
        pricing_policy: PricingPolicy,
        revenue_split: RevenueSplit,
    ) -> (r: Self)
        ensures
            r.model_id.0@ == sha256_spec(model_id_input(owner, shard_root)),
            r == (ModelInfo {
                model_id: r.model_id,
                ..new_model(owner, shard_root, shard_count, pricing_policy, revenue_split)
            }),
    {
        let mut input: Vec<u8> = Vec::new();
        push_all(&mut input, owner.0.as_slice());
        push_le(&mut input, 1, 4);
        push_all(&mut input, shard_root.0.as_slice());
        let model_id = sha256(input.as_slice());
        ModelInfo {
            model_id: Hash32(model_id),
            owner,
            version: 1,
            shard_root,
            shard_count,
            state: ModelState::Registered,
            pricing_policy,
            revenue_split,
            created_at: 0,
            updated_at: 0,
            total_prompts: 0,
            total_revenue: 0,
        }
    }

    /// Moves to the next version with new shards.
    pub fn update_version(&mut self, shard_root: Hash32, shard_count: u32)
        requires
            old(self).version < u32::MAX,
        ensures
            *final(self) == (ModelInfo {
                version: (old(self).version + 1) as u32,
                shard_root,
                shard_count,
                updated_at: 0,
                ..*old(self)
            }),
    {
        self.version = self.version + 1;
        self.shard_root = shard_root;
        self.shard_count = shard_count;
        self.updated_at = 0;
    }
}

/// A hiding commitment to a prompt: the digest of the prompt and a salt.
#[derive(Clone, Debug)]
pub struct PromptCommitment {
    pub commitment: Hash32,
    pub salt: Vec<u8>,
    pub prompt_hash: Hash32,
}

/// Whether `c` commits to `prompt`.
pub open spec fn commits_to(c: PromptCommitment, prompt: Seq<u8>) -> bool {
    sha256_spec(prompt + c.salt@) == c.commitment.0@
}

impl PromptCommitment {
    /// Commits to `prompt` with `salt`; also keeps the prompt's own digest.
    pub fn new(prompt: &[u8], salt: Vec<u8>) -> (r: Self)
        ensures
            r.commitment.0@ == sha256_spec(prompt@ + salt@),
            r.salt@ == salt@,
            r.prompt_hash.0@ == sha256_spec(prompt@),
    {
        let mut input: Vec<u8> = Vec::new();
        push_all(&mut input, prompt);
        push_all(&mut input, salt.as_slice());
        let commitment = sha256(input.as_slice());
        let prompt_hash = sha256(prompt);
        PromptCommitment { commitment: Hash32(commitment), salt, prompt_hash: Hash32(prompt_hash) }
    }

    /// Whether this commits to `prompt`.
    pub fn verify(&self, prompt: &[u8]) -> (r: bool)
        ensures
            r == commits_to(*self, prompt@),
    {
        let mut input: Vec<u8> = Vec::new();
        push_all(&mut input, prompt);
        push_all(&mut input, self.salt.as_slice());
        let computed = sha256(input.as_slice());
        bytes32_eq(&computed, &self.commitment.0)
    }

    fn duplicate(&self) -> (r: Self)
        ensures
            r.commitment == self.commitment,
            r.salt@ == self.salt@,
            r.prompt_hash == self.prompt_hash,
    {
        PromptCommitment { commitment: self.commitment, salt: self.salt.clone(), prompt_hash: self.prompt_hash }
    }
}

/// A commitment made from a prompt and a salt verifies against that prompt.
pub proof fn lemma_commitment_opens(c: PromptCommitment, prompt: Seq<u8>, salt: Seq<u8>)
    requires
        c.commitment.0@ == sha256_spec(prompt + salt),
        c.salt@ == salt,
    ensures
        commits_to(c, prompt),
{
}

/// A prompt in escrow.
#[derive(Clone, Debug)]
pub struct PromptEntry {
    pub prompt_id: Hash32,
    pub model_id: Hash32,
    pub version: u32,
    pub sender: Address,
    pub commitment: PromptCommitment,
    pub deadline_height: u64,
    pub escrow_amount: u128,
    pub status: PromptStatus,
    pub relay_mode: RelayMode,
    pub pricing_mode: PricingMode,
    pub max_output_tokens: u32,
    pub operator: Option<Address>,
    pub created_at: u64,
}

/// The bytes that identify a prompt: model, version (little-endian),
/// sender and commitment.
pub open spec fn prompt_id_input(model_id: Hash32, version: u32, sender: Address, commitment: Hash32) -> Seq<u8> {
    model_id.0@ + le_bytes(version as nat, 4) + sender.0@ + commitment.0@
}

/// Two prompt entries equal in every field, the salt compared by its bytes.
pub open spec fn same_prompt(a: PromptEntry, b: PromptEntry) -> bool {
    &&& a.commitment.salt@ == b.commitment.salt@
    &&& a == (PromptEntry {
        commitment: PromptCommitment { salt: a.commitment.salt, ..b.commitment },
        ..b
    })
}

impl PromptEntry {
    /// A pending prompt; its identifier is the SHA-256 digest of
    /// `prompt_id_input`.
    pub fn new(
        model_id: Hash32,
        version: u32,
        sender: Address,
        commitment: PromptCommitment,
        deadline_height: u64,
        escrow_amount: u128,
        relay_mode: RelayMode,
        pricing_mode: PricingMode,
        max_output_tokens: u32,
    ) -> (r: Self)
        ensures
            r.prompt_id.0@ == sha256_spec(prompt_id_input(model_id, version, sender, commitment.commitment)),
            r == (PromptEntry {
                prompt_id: r.prompt_id,
                model_id,
                version,
                sender,
                commitment,
                deadline_height,
                escrow_amount,
                status: PromptStatus::Pending,
                relay_mode,
                pricing_mode,
                max_output_tokens,
                operator: None,
                created_at: 0,
            }),
    {
        let mut input: Vec<u8> = Vec::new();
        push_all(&mut input, model_id.0.as_slice());
        push_le(&mut input, version as u128, 4);
        push_all(&mut input, sender.0.as_slice());
        push_all(&mut input, commitment.commitment.0.as_slice());
        let prompt_id = sha256(input.as_slice());
        PromptEntry {
            prompt_id: Hash32(prompt_id),
            model_id,
            version,
            sender,
            commitment,
            deadline_height,
            escrow_amount,
            status: PromptStatus::Pending,
            relay_mode,
            pricing_mode,
            max_output_tokens,
            operator: None,
            created_at: 0,
        }
    }

    fn duplicate(&self) -> (r: Self)
        ensures
            same_prompt(r, *self),
    {
        PromptEntry {
            prompt_id: self.prompt_id,
            model_id: self.model_id,
            version: self.version,
            sender: self.sender,
            commitment: self.commitment.duplicate(),
            deadline_height: self.deadline_height,
            escrow_amount: self.escrow_amount,
            status: self.status,
            relay_mode: self.relay_mode,
            pricing_mode: self.pricing_mode,
            max_output_tokens: self.max_output_tokens,
            operator: self.operator,
            created_at: self.created_at,
        }
    }

    pub fn accept(&mut self, operator: Address)
        ensures
            *final(self) == (PromptEntry { operator: Some(operator), ..*old(self) }),
    {
        self.operator = Some(operator);
    }

    pub fn settle(&mut self)
        ensures
            *final(self) == (PromptEntry { status: PromptStatus::Settled, ..*old(self) }),
    {
        self.status = PromptStatus::Settled;
    }

    pub fn expire(&mut self)
        ensures
            *final(self) == (PromptEntry { status: PromptStatus::Expired, ..*old(self) }),
    {
        self.status = PromptStatus::Expired;
    }

    pub fn dispute(&mut self)
        ensures
            *final(self) == (PromptEntry { status: PromptStatus::Disputed, ..*old(self) }),
    {
        self.status = PromptStatus::Disputed;
    }
}

/// An operator's receipt for an inference.
#[derive(Clone, Debug)]
pub struct ReceiptEntry {
    pub receipt_id: Hash32,
    pub prompt_id: Hash32,
    pub model_id: Hash32,
    pub operator: Address,
    pub inference_output: Vec<u8>,
    pub gas_used: u64,
    pub fee: u128,
    pub validated: bool,
    pub created_at: u64,
}

/// The bytes that identify a receipt: prompt, operator and output.
pub open spec fn receipt_id_input(prompt_id: Hash32, operator: Address, output: Seq<u8>) -> Seq<u8> {
    prompt_id.0@ + operator.0@ + output
}

/// Two receipts equal in every field, the output compared by its bytes.
pub open spec fn same_receipt(a: ReceiptEntry, b: ReceiptEntry) -> bool {
    a.inference_output@ == b.inference_output@ && a == (ReceiptEntry { inference_output: a.inference_output, ..b })
}

impl ReceiptEntry {
    /// An unvalidated receipt; its identifier is the SHA-256 digest of
    /// `receipt_id_input`.
    pub fn new(
        prompt_id: Hash32,
        model_id: Hash32,
        operator: Address,
        inference_output: Vec<u8>,
        gas_used: u64,
        fee: u128,
    ) -> (r: Self)
        ensures
            r.receipt_id.0@ == sha256_spec(receipt_id_input(prompt_id, operator, inference_output@)),
            r.prompt_id == prompt_id,
            r.model_id == model_id,
            r.operator == operator,
            r.inference_output@ == inference_output@,
            r.gas_used == gas_used,
            r.fee == fee,
            !r.validated,
            r.created_at == 0,
    {
        let mut input: Vec<u8> = Vec::new();
        push_all(&mut input, prompt_id.0.as_slice());
        push_all(&mut input, operator.0.as_slice());
        push_all(&mut input, inference_output.as_slice());
        let receipt_id = sha256(input.as_slice());
        ReceiptEntry {
            receipt_id: Hash32(receipt_id),
            prompt_id,
            model_id,
            operator,
            inference_output,
            gas_used,
            fee,
            validated: false,
            created_at: 0,
        }
    }

    fn duplicate(&self) -> (r: Self)
        ensures
            same_receipt(r, *self),
    {
        ReceiptEntry {
            receipt_id: self.receipt_id,
            prompt_id: self.prompt_id,
            model_id: self.model_id,
            operator: self.operator,
            inference_output: self.inference_output.clone(),
            gas_used: self.gas_used,
            fee: self.fee,
            validated: self.validated,
            created_at: self.created_at,
        }
    }
}

/// A fee split into the shares of a `RevenueSplit`.
#[derive(Clone, Copy, Debug, PartialEq, Eq, Structural)]
pub struct RevenueDistribution {
    pub operator_amount: u128,
    pub owner_amount: u128,
    pub shard_provider_amount: u128,
    pub validator_amount: u128,
    pub treasury_amount: u128,
}

/// Whether every share of `fee` under `s` can be computed without overflow.
pub open spec fn distribution_computable(fee: u128, s: RevenueSplit) -> bool {
    &&& fee * s.operator_bp <= u128::MAX
    &&& fee * s.owner_bp <= u128::MAX
    &&& fee * s.shard_provider_bp <= u128::MAX
    &&& fee * s.validator_bp <= u128::MAX
    &&& fee * s.treasury_bp <= u128::MAX
}

/// Each share: the fee times the share's basis points, over 10000.
pub open spec fn distribution_spec(fee: u128, s: RevenueSplit) -> RevenueDistribution {
    RevenueDistribution {
        operator_amount: ((fee * s.operator_bp) / 10000) as u128,
        owner_amount: ((fee * s.owner_bp) / 10000) as u128,
        shard_provider_amount: ((fee * s.shard_provider_bp) / 10000) as u128,
        validator_amount: ((fee * s.validator_bp) / 10000) as u128,
        treasury_amount: ((fee * s.treasury_bp) / 10000) as u128,
    }
}

/// The exact sum of the shares of a distribution.
pub open spec fn distribution_sum(d: RevenueDistribution) -> int {
    d.operator_amount + d.owner_amount + d.shard_provider_amount + d.validator_amount + d.treasury_amount
}

proof fn lemma_share_le(fee: u128, bp: u16)
    ensures
        (fee * bp) / 10000 <= fee * bp,
        fee * bp * 10000 / 10000 == fee * bp,
{
    assert((fee * bp) / 10000 <= fee * bp) by (nonlinear_arith)
        requires
            fee * bp >= 0,
    ;
}

impl RevenueDistribution {
    /// Splits `total_fee` by `split`; each share rounds down.
    pub fn distribute(total_fee: u128, split: &RevenueSplit) -> (r: Self)
        requires
            distribution_computable(total_fee, *split),
        ensures
            r == distribution_spec(total_fee, *split),
            split_is_whole(*split) ==> distribution_sum(r) <= total_fee && total_fee - distribution_sum(r) < 5,
    {
        proof {
            lemma_share_le(total_fee, split.operator_bp);
            lemma_share_le(total_fee, split.owner_bp);
            lemma_share_le(total_fee, split.shard_provider_bp);
            lemma_share_le(total_fee, split.validator_bp);
            lemma_share_le(total_fee, split.treasury_bp);
            if split_is_whole(*split) {
                lemma_whole_split(total_fee, *split);
            }
        }
        let operator_amount = (total_fee * split.operator_bp as u128) / 10000;
        let owner_amount = (total_fee * split.owner_bp as u128) / 10000;
        let shard_provider_amount = (total_fee * split.shard_provider_bp as u128) / 10000;
        let validator_amount = (total_fee * split.validator_bp as u128) / 10000;
        let treasury_amount = (total_fee * split.treasury_bp as u128) / 10000;
        RevenueDistribution { operator_amount, owner_amount, shard_provider_amount, validator_amount, treasury_amount }
    }

    /// The shares added with saturation.
    pub fn total(&self) -> (r: u128)
        ensures
            r == self.operator_amount.saturating_add(self.owner_amount).saturating_add(
                self.shard_provider_amount,
            ).saturating_add(self.validator_amount).saturating_add(self.treasury_amount),
            distribution_sum(*self) <= u128::MAX ==> r == distribution_sum(*self),
    {
        self.operator_amount.saturating_add(self.owner_amount).saturating_add(self.shard_provider_amount).saturating_add(
            self.validator_amount,
        ).saturating_add(self.treasury_amount)
    }
}

/// Rounding each of five shares of a whole split down loses less than five
/// units and never more than the fee.
proof fn lemma_whole_split(fee: u128, s: RevenueSplit)
    requires
        split_is_whole(s),
    ensures
        distribution_sum(distribution_spec(fee, s)) <= fee,
        fee - distribution_sum(distribution_spec(fee, s)) < 5,
{
    let f = fee as int;
    let a = s.operator_bp as int;
    let b = s.owner_bp as int;
    let c = s.shard_provider_bp as int;
    let d = s.validator_bp as int;
    let e = s.treasury_bp as int;
    assert(f * a + f * b + f * c + f * d + f * e == f * 10000) by (nonlinear_arith)
        requires
            a + b + c + d + e == 10000,
    ;
    assert((f * a) / 10000 + (f * b) / 10000 + (f * c) / 10000 + (f * d) / 10000 + (f * e) / 10000 <= f)
        by (nonlinear_arith)
        requires
            f * a + f * b + f * c + f * d + f * e == f * 10000,
            f >= 0,
            a >= 0,
            b >= 0,
            c >= 0,
            d >= 0,
            e >= 0,
    ;
    assert(f - ((f * a) / 10000 + (f * b) / 10000 + (f * c) / 10000 + (f * d) / 10000 + (f * e) / 10000) < 5)
        by (nonlinear_arith)
        requires
            f * a + f * b + f * c + f * d + f * e == f * 10000,
            f >= 0,
            a >= 0,
            b >= 0,
            c >= 0,
            d >= 0,
            e >= 0,
    ;
}

/// A registered inference operator.
#[derive(Clone, Copy, Debug)]
pub struct OperatorInfo {
    pub address: Address,
    pub stake: u128,
    pub is_active: bool,
    pub prompts_handled: u64,
    pub total_revenue: u128,
    pub reputation: u32,
}

impl OperatorInfo {
    pub fn new(address: Address, stake: u128) -> (r: Self)
        ensures
            r == (OperatorInfo { address, stake, is_active: true, prompts_handled: 0, total_revenue: 0, reputation: 100 }),
    {
        OperatorInfo { address, stake, is_active: true, prompts_handled: 0, total_revenue: 0, reputation: 100 }
    }

    /// Counts a handled prompt and its revenue.
    pub fn record_prompt(&mut self, revenue: u128)
        requires
            old(self).prompts_handled < u64::MAX,
        ensures
            *final(self) == (OperatorInfo {
                prompts_handled: (old(self).prompts_handled + 1) as u64,
                total_revenue: old(self).total_revenue.saturating_add(revenue),
                ..*old(self)
            }),
    {
        self.prompts_handled = self.prompts_handled + 1;
        self.total_revenue = self.total_revenue.saturating_add(revenue);
    }

    /// Moves the reputation by `rating`, kept between 0 and 100.
    pub fn update_reputation(&mut self, rating: i32)
        requires
            old(self).reputation <= i32::MAX,
            i32::MIN <= old(self).reputation + rating <= i32::MAX,
        ensures
            *final(self) == (OperatorInfo {
                reputation: if old(self).reputation + rating < 0 {
                    0u32
                } else if old(self).reputation + rating > 100 {
                    100u32
                } else {
                    (old(self).reputation + rating) as u32
                },
                ..*old(self)
            }),
    {
        let sum = self.reputation as i32 + rating;
        let new_rep = if sum < 0 {
            0
        } else if sum > 100 {
            100
        } else {
            sum
        };
        self.reputation = new_rep as u32;
    }
}

/// Why the inference protocol refused an operation.
#[derive(Clone, Copy, Debug, PartialEq, Eq, Structural)]
pub enum IfpError {
    ModelNotFound,
    ModelNotActive,
    PromptNotFound,
    PromptNotActive,
    PromptExpired,
    ReceiptNotFound,
    AlreadyValidated,
    OperatorNotRegistered,
    InsufficientStake,
    InsufficientEscrow,
    OutputTooLarge,
    InvalidRevenueSplit,
}

/// Models, prompts, receipts and operators of the inference protocol.
pub struct InferenceModule {
    models: Table<Hash32, ModelInfo>,
    prompts: Table<Hash32, PromptEntry>,
    receipts: Table<Hash32, ReceiptEntry>,
    operators: Table<Address, OperatorInfo>,
    pub treasury_balance: u128,
    pub total_escrowed: u128,
    pub total_revenue: u128,
}

/// The model of the inference module: its tables keyed by the bytes of
/// their identifiers, and its totals.
pub struct InferenceView {
    pub models: Map<Seq<u8>, ModelInfo>,
    pub prompts: Map<Seq<u8>, PromptEntry>,
    pub receipts: Map<Seq<u8>, ReceiptEntry>,
    pub operators: Map<Seq<u8>, OperatorInfo>,
    pub treasury_balance: u128,
    pub total_escrowed: u128,
    pub total_revenue: u128,
}

impl View for InferenceModule {
    type V = InferenceView;

    closed spec fn view(&self) -> InferenceView {
        InferenceView {
            models: self.models@,
            prompts: self.prompts@,
            receipts: self.receipts@,
            operators: self.operators@,
            treasury_balance: self.treasury_balance,
            total_escrowed: self.total_escrowed,
            total_revenue: self.total_revenue,
        }
    }
}

/// Whether a prompt expires at `height`: it is pending and past its deadline.
pub open spec fn expiring(p: PromptEntry, height: u64) -> bool {
    p.status == PromptStatus::Pending && height > p.deadline_height
}

/// A prompt after expiry at `height`.
pub open spec fn after_expiry(p: PromptEntry, height: u64) -> PromptEntry {
    if expiring(p, height) {
        PromptEntry { status: PromptStatus::Expired, ..p }
    } else {
        p
    }
}

/// `start` less the escrows of the prompts `ids`, one after another, saturating.
pub open spec fn escrow_drain(start: u128, ids: Seq<Hash32>, m: Map<Seq<u8>, PromptEntry>) -> u128
    decreases ids.len(),
{
    if ids.len() == 0 {
        start
    } else {
        escrow_drain(start, ids.drop_last(), m).saturating_sub(m[ids.last().0@].escrow_amount)
    }
}

pub open spec fn is_pending(p: PromptEntry) -> bool {
    p.status == PromptStatus::Pending
}

/// The fee of a receipt for prompt `p` under model `m`: the price of half
/// the output limit in and the output limit out, at least the escrow.
pub open spec fn receipt_fee(m: ModelInfo, p: PromptEntry) -> u128 {
    let price = price_spec(m.pricing_policy, p.max_output_tokens / 2, p.max_output_tokens);
    if price >= p.escrow_amount {
        price
    } else {
        p.escrow_amount
    }
}

impl InferenceModule {
    /// The tables are well formed and operators are stored under their address.
    pub closed spec fn wf(&self) -> bool {
        &&& self.models.wf()
        &&& self.prompts.wf()
        &&& self.receipts.wf()
        &&& self.operators.wf()
        &&& forall|k: Seq<u8>| #[trigger] self.operators@.dom().contains(k) ==> self.operators@[k].address.0@ == k
    }

    pub fn new() -> (r: Self)
        ensures
            r.wf(),
            r@.models == Map::<Seq<u8>, ModelInfo>::empty(),
            r@.prompts == Map::<Seq<u8>, PromptEntry>::empty(),
            r@.receipts == Map::<Seq<u8>, ReceiptEntry>::empty(),
            r@.operators == Map::<Seq<u8>, OperatorInfo>::empty(),
            r@.treasury_balance == 0 && r@.total_escrowed == 0 && r@.total_revenue == 0,
    {
        InferenceModule {
            models: Table::new(),
            prompts: Table::new(),
            receipts: Table::new(),
            operators: Table::new(),
            treasury_balance: 0,
            total_escrowed: 0,
            total_revenue: 0,
        }
    }

    /// Registers a model whose revenue split is whole; a model with the
    /// same identifier is replaced.
    pub fn register_model(
        &mut self,
        owner: Address,
        shard_root: Hash32,
        shard_count: u32,
        pricing_policy: PricingPolicy,
        revenue_split: RevenueSplit,
    ) -> (r: Result<ModelInfo, IfpError>)
        requires
            old(self).wf(),
        ensures
            final(self).wf(),
            !split_is_whole(revenue_split) ==> r == Err::<ModelInfo, IfpError>(IfpError::InvalidRevenueSplit)
                && final(self)@ == old(self)@,
            split_is_whole(revenue_split) ==> {
                let id = sha256_spec(model_id_input(owner, shard_root));
                &&& r matches Ok(m) && m.model_id.0@ == id && m == (ModelInfo {
                    model_id: m.model_id,
                    ..new_model(owner, shard_root, shard_count, pricing_policy, revenue_split)
                })
                &&& final(self)@ == (InferenceView { models: old(self)@.models.insert(id, r->Ok_0), ..old(self)@ })
            },
    {
        let total = checked_split_total(
            revenue_split.operator_bp,
            revenue_split.owner_bp,
            revenue_split.shard_provider_bp,
            revenue_split.validator_bp,
            revenue_split.treasury_bp,
        );
        match total {
            Some(t) => {
                if t != 10000 {
                    return Err(IfpError::InvalidRevenueSplit);
                }
            },
            None => {
                return Err(IfpError::InvalidRevenueSplit);
            },
        }
        let model = ModelInfo::new(owner, shard_root, shard_count, pricing_policy, revenue_split);
        let model_id = model.model_id;
        self.models.insert(model_id, model);
        Ok(model)
    }

    /// Moves a model to its next version with new shards.
    pub fn update_model(&mut self, model_id: &Hash32, shard_root: Hash32, shard_count: u32) -> (r: Result<
        ModelInfo,
        IfpError,
    >)
        requires
            old(self).wf(),
            old(self)@.models.dom().contains(model_id.0@) ==> old(self)@.models[model_id.0@].version < u32::MAX,
        ensures
            final(self).wf(),
            !old(self)@.models.dom().contains(model_id.0@) ==> r == Err::<ModelInfo, IfpError>(IfpError::ModelNotFound)
                && final(self)@ == old(self)@,
            old(self)@.models.dom().contains(model_id.0@) ==> {
                let m = old(self)@.models[model_id.0@];
                let m2 = ModelInfo { version: (m.version + 1) as u32, shard_root, shard_count, updated_at: 0, ..m };
                &&& r == Ok::<ModelInfo, IfpError>(m2)
                &&& final(self)@ == (InferenceView { models: old(self)@.models.insert(model_id.0@, m2), ..old(self)@ })
            },
    {
        match self.models.get_mut(model_id) {
            Some(model) => {
                model.update_version(shard_root, shard_count);
                Ok(*model)
            },
            None => Err(IfpError::ModelNotFound),
        }
    }

    /// Activates a model.
    pub fn activate_model(&mut self, model_id: &Hash32) -> (r: Result<ModelInfo, IfpError>)
        requires
            old(self).wf(),
        ensures
            final(self).wf(),
            !old(self)@.models.dom().contains(model_id.0@) ==> r == Err::<ModelInfo, IfpError>(IfpError::ModelNotFound)
                && final(self)@ == old(self)@,
            old(self)@.models.dom().contains(model_id.0@) ==> {
                let m2 = ModelInfo { state: ModelState::Active, updated_at: 0, ..old(self)@.models[model_id.0@] };
                &&& r == Ok::<ModelInfo, IfpError>(m2)
                &&& final(self)@ == (InferenceView { models: old(self)@.models.insert(model_id.0@, m2), ..old(self)@ })
            },
    {
        match self.models.get_mut(model_id) {
            Some(model) => {
                model.state = ModelState::Active;
                model.updated_at = 0;
                Ok(*model)
            },
            None => Err(IfpError::ModelNotFound),
        }
    }

    /// Pauses a model.
    pub fn pause_model(&mut self, model_id: &Hash32) -> (r: Result<ModelInfo, IfpError>)
        requires
            old(self).wf(),
        ensures
            final(self).wf(),
            !old(self)@.models.dom().contains(model_id.0@) ==> r == Err::<ModelInfo, IfpError>(IfpError::ModelNotFound)
                && final(self)@ == old(self)@,
            old(self)@.models.dom().contains(model_id.0@) ==> {
                let m2 = ModelInfo { state: ModelState::Paused, ..old(self)@.models[model_id.0@] };
                &&& r == Ok::<ModelInfo, IfpError>(m2)
                &&& final(self)@ == (InferenceView { models: old(self)@.models.insert(model_id.0@, m2), ..old(self)@ })
            },
    {
        match self.models.get_mut(model_id) {
            Some(model) => {
                model.state = ModelState::Paused;
                Ok(*model)
            },
            None => Err(IfpError::ModelNotFound),
        }
    }

    pub fn get_model(&self, model_id: &Hash32) -> (r: Option<&ModelInfo>)
        requires
            self.wf(),
        ensures
            r is Some <==> self@.models.dom().contains(model_id.0@),
            r matches Some(m) ==> *m == self@.models[model_id.0@],
    {
        self.models.get(model_id)
    }

    /// Registers an operator with at least the minimum stake, replacing an
    /// earlier registration.
    pub fn register_operator(&mut self, address: Address, stake: u128) -> (r: Result<OperatorInfo, IfpError>)
        requires
            old(self).wf(),
        ensures
            final(self).wf(),
            stake < MIN_ESCROW_AMOUNT ==> r == Err::<OperatorInfo, IfpError>(IfpError::InsufficientStake) && final(self)@ == old(self)@,
            stake >= MIN_ESCROW_AMOUNT ==> {
                let op = OperatorInfo {
                    address,
                    stake,
                    is_active: true,
                    prompts_handled: 0,
                    total_revenue: 0,
                    reputation: 100,
                };
                &&& r == Ok::<OperatorInfo, IfpError>(op)
                &&& final(self)@ == (InferenceView { operators: old(self)@.operators.insert(address.0@, op), ..old(self)@ })
            },
    {
        if stake < MIN_ESCROW_AMOUNT {
            return Err(IfpError::InsufficientStake);
        }
        let operator = OperatorInfo::new(address, stake);
        self.operators.insert(address, operator);
        Ok(operator)
    }

    pub fn get_operator(&self, address: &Address) -> (r: Option<&OperatorInfo>)
        requires
            self.wf(),
        ensures
            r is Some <==> self@.operators.dom().contains(address.0@),
            r matches Some(o) ==> *o == self@.operators[address.0@],
    {
        self.operators.get(address)
    }

    /// Escrows a prompt for a model that takes prompts, with at least the
    /// minimum escrow and at most the maximum output; returns a copy of it.
    pub fn submit_prompt(
        &mut self,
        model_id: Hash32,
        version: u32,
        sender: Address,
        commitment: PromptCommitment,
        deadline_height: u64,
        escrow_amount: u128,
        relay_mode: RelayMode,
        pricing_mode: PricingMode,
        max_output_tokens: u32,
    ) -> (r: Result<PromptEntry, IfpError>)
        requires
            old(self).wf(),
        ensures
            final(self).wf(),
            ({
                let mid = model_id.0@;
                let m = old(self)@.models[mid];
                &&& !old(self)@.models.dom().contains(mid) ==> r == Err::<PromptEntry, IfpError>(
                    IfpError::ModelNotFound,
                ) && final(self)@ == old(self)@
                &&& old(self)@.models.dom().contains(mid) && !(m.state == ModelState::Active || m.state
                    == ModelState::Paused || m.state == ModelState::Deprecated) ==> r == Err::<PromptEntry, IfpError>(
                    IfpError::ModelNotActive,
                ) && final(self)@ == old(self)@
                &&& old(self)@.models.dom().contains(mid) && (m.state == ModelState::Active || m.state
                    == ModelState::Paused || m.state == ModelState::Deprecated) && escrow_amount < MIN_ESCROW_AMOUNT
                    ==> r == Err::<PromptEntry, IfpError>(IfpError::InsufficientEscrow) && final(self)@ == old(self)@
                &&& old(self)@.models.dom().contains(mid) && (m.state == ModelState::Active || m.state
                    == ModelState::Paused || m.state == ModelState::Deprecated) && escrow_amount >= MIN_ESCROW_AMOUNT
                    && max_output_tokens > MAX_OUTPUT_TOKENS ==> r == Err::<PromptEntry, IfpError>(
                    IfpError::OutputTooLarge,
                ) && final(self)@ == old(self)@
                &&& old(self)@.models.dom().contains(mid) && (m.state == ModelState::Active || m.state
                    == ModelState::Paused || m.state == ModelState::Deprecated) && escrow_amount >= MIN_ESCROW_AMOUNT
                    && max_output_tokens <= MAX_OUTPUT_TOKENS ==> {
                    let pid = sha256_spec(prompt_id_input(model_id, version, sender, commitment.commitment));
                    let e = final(self)@.prompts[pid];
                    &&& r matches Ok(p) && same_prompt(p, e)
                    &&& e.prompt_id.0@ == pid
                    &&& e.model_id == model_id && e.version == version && e.sender == sender
                    &&& e.commitment.commitment == commitment.commitment && e.commitment.salt@ == commitment.salt@
                    &&& e.commitment.prompt_hash == commitment.prompt_hash
                    &&& e.deadline_height == deadline_height && e.escrow_amount == escrow_amount
                    &&& e.status == PromptStatus::Pending && e.relay_mode == relay_mode && e.pricing_mode == pricing_mode
                    &&& e.max_output_tokens == max_output_tokens && e.operator is None && e.created_at == 0
                    &&& final(self)@.prompts.dom() == old(self)@.prompts.dom().insert(pid)
                    &&& forall|k: Seq<u8>| k != pid && #[trigger] old(self)@.prompts.dom().contains(k) ==> final(self)@.prompts[k]
                        == old(self)@.prompts[k]
                    &&& final(self)@ == (InferenceView {
                        prompts: final(self)@.prompts,
                        total_escrowed: old(self)@.total_escrowed.saturating_add(escrow_amount),
                        ..old(self)@
                    })
                }
            }),
    {
        match self.models.get(&model_id) {
            Some(model) => {
                if !model.state.can_receive_prompts() {
                    return Err(IfpError::ModelNotActive);
                }
            },
            None => {
                return Err(IfpError::ModelNotFound);
            },
        }
        if escrow_amount < MIN_ESCROW_AMOUNT {
            return Err(IfpError::InsufficientEscrow);
        }
        if max_output_tokens > MAX_OUTPUT_TOKENS {
            return Err(IfpError::OutputTooLarge);
        }
        let prompt = PromptEntry::new(
            model_id,
            version,
            sender,
            commitment,
            deadline_height,
            escrow_amount,
            relay_mode,
            pricing_mode,
            max_output_tokens,
        );
        let prompt_id = prompt.prompt_id;
        let copy = prompt.duplicate();
        self.prompts.insert(prompt_id, prompt);
        self.total_escrowed = self.total_escrowed.saturating_add(escrow_amount);
        Ok(copy)
    }

    /// Assigns a pending prompt to a registered operator.
    pub fn accept_prompt(&mut self, prompt_id: &Hash32, operator: Address) -> (r: Result<(), IfpError>)
        requires
            old(self).wf(),
        ensures
            final(self).wf(),
            ({
                let pid = prompt_id.0@;
                let p = old(self)@.prompts[pid];
                &&& !old(self)@.prompts.dom().contains(pid) ==> r == Err::<(), IfpError>(IfpError::PromptNotFound)
                    && final(self)@ == old(self)@
                &&& old(self)@.prompts.dom().contains(pid) && p.status != PromptStatus::Pending ==> r == Err::<
                    (),
                    IfpError,
                >(IfpError::PromptNotActive) && final(self)@ == old(self)@
                &&& old(self)@.prompts.dom().contains(pid) && p.status == PromptStatus::Pending
                    && !old(self)@.operators.dom().contains(operator.0@) ==> r == Err::<(), IfpError>(
                    IfpError::OperatorNotRegistered,
                ) && final(self)@ == old(self)@
                &&& old(self)@.prompts.dom().contains(pid) && p.status == PromptStatus::Pending
                    && old(self)@.operators.dom().contains(operator.0@) ==> r is Ok && final(self)@ == (InferenceView {
                    prompts: old(self)@.prompts.insert(pid, PromptEntry { operator: Some(operator), ..p }),
                    ..old(self)@
                })
            }),
    {
        match self.prompts.get(prompt_id) {
            Some(prompt) => {
                if !prompt.status.is_active() {
                    return Err(IfpError::PromptNotActive);
                }
            },
            None => {
                return Err(IfpError::PromptNotFound);
            },
        }
        if !self.operators.contains_key(&operator) {
            return Err(IfpError::OperatorNotRegistered);
        }
        match self.prompts.get_mut(prompt_id) {
            Some(prompt) => {
                prompt.accept(operator);
            },
            None => {},
        }
        Ok(())
    }

    /// Records an operator's receipt for a pending prompt, charging
    /// `receipt_fee`; returns a copy of it. A receipt with the same
    /// identifier is replaced.
    pub fn submit_receipt(&mut self, prompt_id: Hash32, operator: Address, inference_output: Vec<u8>, gas_used: u64) -> (r: Result<
        ReceiptEntry,
        IfpError,
    >)
        requires
            old(self).wf(),
            old(self)@.prompts.dom().contains(prompt_id.0@) && old(self)@.models.dom().contains(
                old(self)@.prompts[prompt_id.0@].model_id.0@,
            ) ==> price_computable(
                old(self)@.models[old(self)@.prompts[prompt_id.0@].model_id.0@].pricing_policy,
                old(self)@.prompts[prompt_id.0@].max_output_tokens / 2,
                old(self)@.prompts[prompt_id.0@].max_output_tokens,
            ),
        ensures
            final(self).wf(),
            ({
                let pid = prompt_id.0@;
                let p = old(self)@.prompts[pid];
                &&& !old(self)@.prompts.dom().contains(pid) ==> r == Err::<ReceiptEntry, IfpError>(
                    IfpError::PromptNotFound,
                ) && final(self)@ == old(self)@
                &&& old(self)@.prompts.dom().contains(pid) && p.status != PromptStatus::Pending ==> r == Err::<
                    ReceiptEntry,
                    IfpError,
                >(IfpError::PromptNotActive) && final(self)@ == old(self)@
                &&& old(self)@.prompts.dom().contains(pid) && p.status == PromptStatus::Pending
                    && !old(self)@.models.dom().contains(p.model_id.0@) ==> r == Err::<ReceiptEntry, IfpError>(
                    IfpError::ModelNotFound,
                ) && final(self)@ == old(self)@
                &&& old(self)@.prompts.dom().contains(pid) && p.status == PromptStatus::Pending
                    && old(self)@.models.dom().contains(p.model_id.0@) ==> {
                    let rid = sha256_spec(receipt_id_input(prompt_id, operator, inference_output@));
                    let e = final(self)@.receipts[rid];
                    &&& r matches Ok(rc) && same_receipt(rc, e)
                    &&& e.receipt_id.0@ == rid && e.prompt_id == prompt_id && e.model_id == p.model_id
                    &&& e.operator == operator && e.inference_output@ == inference_output@ && e.gas_used == gas_used
                    &&& e.fee == receipt_fee(old(self)@.models[p.model_id.0@], p) && !e.validated && e.created_at == 0
                    &&& final(self)@.receipts.dom() == old(self)@.receipts.dom().insert(rid)
                    &&& forall|k: Seq<u8>| k != rid && #[trigger] old(self)@.receipts.dom().contains(k)
                        ==> final(self)@.receipts[k] == old(self)@.receipts[k]
                    &&& final(self)@ == (InferenceView { receipts: final(self)@.receipts, ..old(self)@ })
                }
            }),
    {
        let (model_id, max_output_tokens, escrow_amount) = match self.prompts.get(&prompt_id) {
            Some(prompt) => {
                if !prompt.status.is_active() {
                    return Err(IfpError::PromptNotActive);
                }
                (prompt.model_id, prompt.max_output_tokens, prompt.escrow_amount)
            },
            None => {
                return Err(IfpError::PromptNotFound);
            },
        };
        let price = match self.models.get(&model_id) {
            Some(model) => model.pricing_policy.compute_price(max_output_tokens / 2, max_output_tokens),
            None => {
                return Err(IfpError::ModelNotFound);
            },
        };
        let fee = if price >= escrow_amount {
            price
        } else {
            escrow_amount
        };
        let receipt = ReceiptEntry::new(prompt_id, model_id, operator, inference_output, gas_used, fee);
        let receipt_id = receipt.receipt_id;
        let copy = receipt.duplicate();
        self.receipts.insert(receipt_id, receipt);
        Ok(copy)
    }

    /// Validates an unvalidated receipt before its prompt's deadline: the
    /// fee leaves escrow and counts as revenue, the prompt is settled, the
    /// model and the operator (if registered) record it, and the treasury
    /// receives its share. Returns the distribution of the fee.
    pub fn validate_receipt(&mut self, receipt_id: &Hash32, current_height: u64) -> (r: Result<RevenueDistribution, IfpError>)
        requires
            old(self).wf(),
            ({
                let rc = old(self)@.receipts[receipt_id.0@];
                let m = old(self)@.models[rc.model_id.0@];
                old(self)@.receipts.dom().contains(receipt_id.0@) && !rc.validated && old(self)@.prompts.dom().contains(
                    rc.prompt_id.0@,
                ) && old(self)@.models.dom().contains(rc.model_id.0@) ==> {
                    &&& distribution_computable(rc.fee, m.revenue_split)
                    &&& m.total_prompts < u64::MAX
                    &&& old(self)@.operators.dom().contains(rc.operator.0@) ==> old(self)@.operators[rc.operator.0@].prompts_handled
                        < u64::MAX
                }
            }),
        ensures
            final(self).wf(),
            ({
                let rid = receipt_id.0@;
                let rc = old(self)@.receipts[rid];
                let pid = rc.prompt_id.0@;
                let mid = rc.model_id.0@;
                let p = old(self)@.prompts[pid];
                let m = old(self)@.models[mid];
                let d = distribution_spec(rc.fee, m.revenue_split);
                &&& !old(self)@.receipts.dom().contains(rid) ==> r == Err::<RevenueDistribution, IfpError>(
                    IfpError::ReceiptNotFound,
                ) && final(self)@ == old(self)@
                &&& old(self)@.receipts.dom().contains(rid) && rc.validated ==> r == Err::<RevenueDistribution, IfpError>(
                    IfpError::AlreadyValidated,
                ) && final(self)@ == old(self)@
                &&& old(self)@.receipts.dom().contains(rid) && !rc.validated && !old(self)@.prompts.dom().contains(pid)
                    ==> r == Err::<RevenueDistribution, IfpError>(IfpError::PromptNotFound) && final(self)@ == old(self)@
                &&& old(self)@.receipts.dom().contains(rid) && !rc.validated && old(self)@.prompts.dom().contains(pid)
                    && current_height > p.deadline_height ==> r == Err::<RevenueDistribution, IfpError>(
                    IfpError::PromptExpired,
                ) && final(self)@ == old(self)@
                &&& old(self)@.receipts.dom().contains(rid) && !rc.validated && old(self)@.prompts.dom().contains(pid)
                    && current_height <= p.deadline_height && !old(self)@.models.dom().contains(mid) ==> r == Err::<
                    RevenueDistribution,
                    IfpError,
                >(IfpError::ModelNotFound) && final(self)@ == old(self)@
                &&& old(self)@.receipts.dom().contains(rid) && !rc.validated && old(self)@.prompts.dom().contains(pid)
                    && current_height <= p.deadline_height && old(self)@.models.dom().contains(mid) ==> {
                    &&& r == Ok::<RevenueDistribution, IfpError>(d)
                    &&& final(self)@ == (InferenceView {
                        models: old(self)@.models.insert(
                            mid,
                            ModelInfo {
                                total_prompts: (m.total_prompts + 1) as u64,
                                total_revenue: m.total_revenue.saturating_add(rc.fee),
                                ..m
                            },
                        ),
                        prompts: old(self)@.prompts.insert(pid, PromptEntry { status: PromptStatus::Settled, ..p }),
                        receipts: old(self)@.receipts.insert(rid, ReceiptEntry { validated: true, ..rc }),
                        operators: if old(self)@.operators.dom().contains(rc.operator.0@) {
                            let o = old(self)@.operators[rc.operator.0@];
                            old(self)@.operators.insert(
                                rc.operator.0@,
                                OperatorInfo {
                                    prompts_handled: (o.prompts_handled + 1) as u64,
                                    total_revenue: o.total_revenue.saturating_add(d.operator_amount),
                                    ..o
                                },
                            )
                        } else {
                            old(self)@.operators
                        },
                        treasury_balance: old(self)@.treasury_balance.saturating_add(d.treasury_amount),
                        total_escrowed: old(self)@.total_escrowed.saturating_sub(rc.fee),
                        total_revenue: old(self)@.total_revenue.saturating_add(rc.fee),
                    })
                }
            }),
    {
        let (validated, prompt_id, model_id, operator, fee) = match self.receipts.get(receipt_id) {
            Some(rc) => (rc.validated, rc.prompt_id, rc.model_id, rc.operator, rc.fee),
            None => {
                return Err(IfpError::ReceiptNotFound);
            },
        };
        if validated {
            return Err(IfpError::AlreadyValidated);
        }
        match self.prompts.get(&prompt_id) {
            Some(prompt) => {
                if current_height > prompt.deadline_height {
                    return Err(IfpError::PromptExpired);
                }
            },
            None => {
                return Err(IfpError::PromptNotFound);
            },
        }
        let revenue_split = match self.models.get(&model_id) {
            Some(model) => model.revenue_split,
            None => {
                return Err(IfpError::ModelNotFound);
            },
        };
        let distribution = RevenueDistribution::distribute(fee, &revenue_split);
        self.total_escrowed = self.total_escrowed.saturating_sub(fee);
        self.total_revenue = self.total_revenue.saturating_add(fee);
        match self.prompts.get_mut(&prompt_id) {
            Some(p) => {
                p.settle();
            },
            None => {},
        }
        match self.models.get_mut(&model_id) {
            Some(m) => {
                m.total_prompts = m.total_prompts + 1;
                m.total_revenue = m.total_revenue.saturating_add(fee);
            },
            None => {},
        }
        self.treasury_balance = self.treasury_balance.saturating_add(distribution.treasury_amount);
        match self.operators.get_mut(&operator) {
            Some(operator_info) => {
                operator_info.record_prompt(distribution.operator_amount);
            },
            None => {},
        }
        match self.receipts.get_mut(receipt_id) {
            Some(rc) => {
                rc.validated = true;
            },
            None => {},
        }
        Ok(distribution)
    }

    /// Expires every pending prompt past its deadline, releasing its escrow,
    /// and returns their identifiers, each once.
    pub fn expire_prompts(&mut self, current_height: u64) -> (r: Vec<Hash32>)
        requires
            old(self).wf(),
        ensures
            final(self).wf(),
            final(self)@ == (InferenceView {
                prompts: old(self)@.prompts.map_values(|p: PromptEntry| after_expiry(p, current_height)),
                total_escrowed: escrow_drain(old(self)@.total_escrowed, r@, old(self)@.prompts),
                ..old(self)@
            }),
            forall|j: int| 0 <= j < r@.len() ==> old(self)@.prompts.dom().contains((#[trigger] r@[j]).0@) && expiring(
                old(self)@.prompts[r@[j].0@],
                current_height,
            ),
            forall|k: Seq<u8>| #[trigger] old(self)@.prompts.dom().contains(k) && expiring(old(self)@.prompts[k], current_height)
                ==> exists|j: int| 0 <= j < r@.len() && r@[j].0@ == k,
            forall|a: int, b: int| 0 <= a < b < r@.len() ==> (#[trigger] r@[a]).0@ != (#[trigger] r@[b]).0@,
    {
        let ghost s0 = *self;
        let ghost src = self.prompts.seq();
        proof {
            self.prompts.lemma_view();
        }
        let n = self.prompts.len();
        let mut expired: Vec<Hash32> = Vec::new();
        let ghost mut idx: Seq<int> = Seq::empty();
        let mut i: usize = 0;
        while i < n
            invariant
                s0.wf(),
                self.prompts.wf(),
                *self == (InferenceModule { prompts: self.prompts, total_escrowed: self.total_escrowed, ..s0 }),
                src == s0.prompts.seq(),
                n == src.len(),
                i <= n,
                crate::table::distinct_keys(src),
                forall|j: int| 0 <= j < n ==> (#[trigger] src[j]).1 == s0@.prompts[src[j].0.kview()]
                    && s0@.prompts.dom().contains(src[j].0.kview()),
                self.prompts.seq().len() == n,
                forall|j: int| 0 <= j < n ==> (#[trigger] self.prompts.seq()[j]).0 == src[j].0,
                forall|j: int| 0 <= j < i ==> (#[trigger] self.prompts.seq()[j]).1 == after_expiry(src[j].1, current_height),
                forall|j: int| i <= j < n ==> (#[trigger] self.prompts.seq()[j]).1 == src[j].1,
                idx.len() == expired@.len(),
                forall|a: int| 0 <= a < idx.len() ==> 0 <= #[trigger] idx[a] < i && expired@[a].0@ == src[idx[a]].0.kview()
                    && expiring(src[idx[a]].1, current_height),
                forall|a: int, b: int| 0 <= a < b < idx.len() ==> #[trigger] idx[a] < #[trigger] idx[b],
                forall|j: int| 0 <= j < i && expiring((#[trigger] src[j]).1, current_height) ==> exists|a: int|
                    0 <= a < idx.len() && idx[a] == j,
                self.total_escrowed == escrow_drain(s0.total_escrowed, expired@, s0@.prompts),
            decreases n - i,
        {
            let key = *self.prompts.key_at(i);
            let (status, deadline, escrow) = {
                let p = self.prompts.value_at(i);
                (p.status, p.deadline_height, p.escrow_amount)
            };
            if status == PromptStatus::Pending && current_height > deadline {
                let p = self.prompts.value_mut_at(i);
                p.expire();
                self.total_escrowed = self.total_escrowed.saturating_sub(escrow);
                let ghost before = expired@;
                expired.push(key);
                proof {
                    assert(expired@.drop_last() =~= before);
                    let old_idx = idx;
                    idx = idx.push(i as int);
                    assert forall|j: int| 0 <= j < i + 1 && expiring((#[trigger] src[j]).1, current_height) implies exists|a: int|
                        0 <= a < idx.len() && idx[a] == j by {
                        if j == i {
                            assert(idx[idx.len() - 1] == j);
                        } else {
                            let a = choose|a: int| 0 <= a < old_idx.len() && old_idx[a] == j;
                            assert(idx[a] == j);
                        }
                    }
                }
            }
            i = i + 1;
        }
        proof {
            crate::table::lemma_map_values(s0.prompts, self.prompts, |p: PromptEntry| after_expiry(p, current_height));
            let m = s0@.prompts;
            assert forall|a: int| 0 <= a < expired@.len() implies m.dom().contains((#[trigger] expired@[a]).0@) && expiring(
                m[expired@[a].0@],
                current_height,
            ) by {
                let j = idx[a];
                assert(src[j].1 == m[src[j].0.kview()]);
            }
            assert forall|k: Seq<u8>| #[trigger] m.dom().contains(k) && expiring(m[k], current_height) implies exists|a: int|
                0 <= a < expired@.len() && expired@[a].0@ == k by {
                let j = choose|j: int| 0 <= j < src.len() && src[j].0.kview() == k;
                assert(src[j].1 == m[k]);
                let a = choose|a: int| 0 <= a < idx.len() && idx[a] == j;
                assert(expired@[a].0@ == k);
            }
            assert forall|a: int, b: int| 0 <= a < b < expired@.len() implies (#[trigger] expired@[a]).0@
                != (#[trigger] expired@[b]).0@ by {
                assert(idx[a] < idx[b]);
                assert(src[idx[a]].0.kview() != src[idx[b]].0.kview());
            }
        }
        expired
    }

    pub fn get_prompt(&self, prompt_id: &Hash32) -> (r: Option<&PromptEntry>)
        requires
            self.wf(),
        ensures
            r is Some <==> self@.prompts.dom().contains(prompt_id.0@),
            r matches Some(p) ==> *p == self@.prompts[prompt_id.0@],
    {
        self.prompts.get(prompt_id)
    }

    pub fn get_receipt(&self, receipt_id: &Hash32) -> (r: Option<&ReceiptEntry>)
        requires
            self.wf(),
        ensures
            r is Some <==> self@.receipts.dom().contains(receipt_id.0@),
            r matches Some(rc) ==> *rc == self@.receipts[receipt_id.0@],
    {
        self.receipts.get(receipt_id)
    }

    /// The active operators, each once.
    pub fn active_operators(&self) -> (r: Vec<&OperatorInfo>)
        requires
            self.wf(),
        ensures
            forall|j: int| 0 <= j < r@.len() ==> self@.operators.dom().contains((#[trigger] r@[j]).address.0@)
                && *r@[j] == self@.operators[r@[j].address.0@] && r@[j].is_active,
            forall|k: Seq<u8>| #[trigger] self@.operators.dom().contains(k) && self@.operators[k].is_active
                ==> exists|j: int| 0 <= j < r@.len() && r@[j].address.0@ == k,
            forall|a: int, b: int| 0 <= a < b < r@.len() ==> (#[trigger] r@[a]).address.0@ != (#[trigger] r@[b]).address.0@,
    {
        let ghost src = self.operators.seq();
        proof {
            self.operators.lemma_view();
        }
        let n = self.operators.len();
        let mut out: Vec<&OperatorInfo> = Vec::new();
        let ghost mut idx: Seq<int> = Seq::empty();
        let mut i: usize = 0;
        while i < n
            invariant
                self.wf(),
                src == self.operators.seq(),
                n == src.len(),
                i <= n,
                crate::table::distinct_keys(src),
                forall|j: int| 0 <= j < n ==> (#[trigger] src[j]).1 == self@.operators[src[j].0.kview()]
                    && self@.operators.dom().contains(src[j].0.kview()),
                idx.len() == out@.len(),
                forall|a: int| 0 <= a < idx.len() ==> 0 <= #[trigger] idx[a] < i && *out@[a] == src[idx[a]].1
                    && src[idx[a]].1.is_active,
                forall|a: int, b: int| 0 <= a < b < idx.len() ==> #[trigger] idx[a] < #[trigger] idx[b],
                forall|j: int| 0 <= j < i && (#[trigger] src[j]).1.is_active ==> exists|a: int|
                    0 <= a < idx.len() && idx[a] == j,
            decreases n - i,
        {
            let op = self.operators.value_at(i);
            if op.is_active {
                out.push(op);
                proof {
                    let old_idx = idx;
                    idx = idx.push(i as int);
                    assert forall|j: int| 0 <= j < i + 1 && (#[trigger] src[j]).1.is_active implies exists|a: int|
                        0 <= a < idx.len() && idx[a] == j by {
                        if j == i {
                            assert(idx[idx.len() - 1] == j);
                        } else {
                            let a = choose|a: int| 0 <= a < old_idx.len() && old_idx[a] == j;
                            assert(idx[a] == j);
                        }
                    }
                }
            }
            i = i + 1;
        }
        proof {
            let m = self@.operators;
            assert forall|a: int| 0 <= a < out@.len() implies m.dom().contains((#[trigger] out@[a]).address.0@)
                && *out@[a] == m[out@[a].address.0@] && out@[a].is_active by {
                let j = idx[a];
                assert(m[src[j].0.kview()].address.0@ == src[j].0.kview());
            }
            assert forall|k: Seq<u8>| #[trigger] m.dom().contains(k) && m[k].is_active implies exists|a: int|
                0 <= a < out@.len() && out@[a].address.0@ == k by {
                let j = choose|j: int| 0 <= j < src.len() && src[j].0.kview() == k;
                assert(src[j].1.is_active);
                let a = choose|a: int| 0 <= a < idx.len() && idx[a] == j;
                assert(out@[a].address.0@ == k);
            }
            assert forall|a: int, b: int| 0 <= a < b < out@.len() implies (#[trigger] out@[a]).address.0@
                != (#[trigger] out@[b]).address.0@ by {
                let ja = idx[a];
                let jb = idx[b];
                assert(ja < jb);
                assert(m[src[ja].0.kview()].address.0@ == src[ja].0.kview());
                assert(m[src[jb].0.kview()].address.0@ == src[jb].0.kview());
                assert(src[ja].0.kview() != src[jb].0.kview());
            }
        }
        out
    }

    pub fn model_count(&self) -> (r: usize)
        requires
            self.wf(),
        ensures
            r == self@.models.len(),
    {
        self.models.len()
    }

    /// The number of pending prompts.
    pub fn pending_prompt_count(&self) -> (r: usize)
        requires
            self.wf(),
        ensures
            r == keys_where(self@.prompts, |p: PromptEntry| is_pending(p)).len(),
    {
        let ghost src = self.prompts.seq();
        let n = self.prompts.len();
        let mut count: usize = 0;
        let mut i: usize = 0;
        proof {
            assert(src.take(0) =~= Seq::<(Hash32, PromptEntry)>::empty());
        }
        while i < n
            invariant
                self.wf(),
                src == self.prompts.seq(),
                n == src.len(),
                i <= n,
                count == count_where(src.take(i as int), |p: PromptEntry| is_pending(p)),
                count <= i,
            decreases n - i,
        {
            proof {
                assert(src.take(i + 1).drop_last() =~= src.take(i as int));
                assert(src.take(i + 1).last() == src[i as int]);
            }
            if self.prompts.value_at(i).status == PromptStatus::Pending {
                count = count + 1;
            }
            i = i + 1;
        }
        proof {
            assert(src.take(n as int) =~= src);
            self.prompts.lemma_view();
            lemma_count_where(src, |p: PromptEntry| is_pending(p));
        }
        count
    }
}

impl Default for InferenceModule {
    fn default() -> (r: Self)
        ensures
            r.wf(),
            r@.models == Map::<Seq<u8>, ModelInfo>::empty(),
            r@.prompts == Map::<Seq<u8>, PromptEntry>::empty(),
            r@.receipts == Map::<Seq<u8>, ReceiptEntry>::empty(),
            r@.operators == Map::<Seq<u8>, OperatorInfo>::empty(),
            r@.treasury_balance == 0 && r@.total_escrowed == 0 && r@.total_revenue == 0,
    {
        InferenceModule::new()
    }
}

} // verus!
