//! The inference protocol's payloads and ledger entries: prompt and receipt
//! submissions, prompt commitments and revenue distribution.

use vstd::prelude::*;
use crate::bytes::{bytes32_eq, le_bytes, push_all, push_le};
use crate::digest::{sha256, sha256_spec};
use crate::kernel::{Address, Hash32};
use crate::primitives::inference::RevenueSplit;

verus! {

#[derive(Clone, Copy, Debug)]
pub struct SubmitPromptPayload {
    pub model_id: Hash32,
    pub version: u32,
    pub prompt_commitment: Hash32,
    pub max_output_tokens: u32,
    pub pricing_mode: u8,
    pub relay_mode: u8,
    pub deadline_height: u64,
    pub fee_limit: u128,
}

impl SubmitPromptPayload {
    pub fn new(
        model_id: Hash32,
        version: u32,
        prompt_commitment: Hash32,
        max_output_tokens: u32,
        pricing_mode: u8,
        relay_mode: u8,
        deadline_height: u64,
        fee_limit: u128,
    ) -> (r: Self)
        ensures
            r == (SubmitPromptPayload {
                model_id,
                version,
                prompt_commitment,
                max_output_tokens,
                pricing_mode,
                relay_mode,
                deadline_height,
                fee_limit,
            }),
    {
        SubmitPromptPayload {
            model_id,
            version,
            prompt_commitment,
            max_output_tokens,
            pricing_mode,
            relay_mode,
            deadline_height,
            fee_limit,
        }
    }
}

#[derive(Clone, Debug)]
pub struct SubmitReceiptPayload {
    pub prompt_tx_hash: Hash32,
    pub inference_output: Vec<u8>,
    pub gas_used: u64,
}

#[derive(Clone, Copy, Debug)]
pub struct PromptEntry {
    pub prompt_id: Hash32,
    pub model_id: Hash32,
    pub version: u32,
    pub sender: Address,
    pub prompt_commitment: Hash32,
    pub deadline_height: u64,
    pub escrow_amount: u128,
    pub status: PromptStatus,
    pub relay_mode: u8,
    pub pricing_mode: u8,
    pub max_output_tokens: u32,
    pub created_at: u64,
}

/// The bytes digested into a prompt entry's id.
pub open spec fn entry_id_input(model_id: Hash32, version: u32, sender: Address, commitment: Hash32) -> Seq<u8> {
    model_id.0@ + le_bytes(version as nat, 4) + sender.0@ + commitment.0@
}

impl PromptEntry {
    /// A pending entry whose id digests the model, version, sender and
    /// commitment.
    pub fn new(
        model_id: Hash32,
        version: u32,
        sender: Address,
        prompt_commitment: Hash32,
        deadline_height: u64,
        escrow_amount: u128,
        relay_mode: u8,
        pricing_mode: u8,
        max_output_tokens: u32,
    ) -> (r: Self)
        ensures
            r.prompt_id.0@ == sha256_spec(entry_id_input(model_id, version, sender, prompt_commitment)),
            r.model_id == model_id && r.version == version && r.sender == sender,
            r.prompt_commitment == prompt_commitment && r.deadline_height == deadline_height,
            r.escrow_amount == escrow_amount && r.status == PromptStatus::Pending,
            r.relay_mode == relay_mode && r.pricing_mode == pricing_mode,
            r.max_output_tokens == max_output_tokens && r.created_at == 0,
    {
        let mut input: Vec<u8> = Vec::new();
        push_all(&mut input, model_id.0.as_slice());
        push_le(&mut input, version as u128, 4);
        push_all(&mut input, sender.0.as_slice());
        push_all(&mut input, prompt_commitment.0.as_slice());
        let prompt_id = sha256(input.as_slice());
        PromptEntry {
            prompt_id: Hash32(prompt_id),
            model_id,
            version,
            sender,
            prompt_commitment,
            deadline_height,
            escrow_amount,
            status: PromptStatus::Pending,
            relay_mode,
            pricing_mode,
            max_output_tokens,
            created_at: 0,
        }
    }
}

#[derive(Clone, Copy, Debug, PartialEq, Eq, Structural)]
pub enum PromptStatus {
    Pending,
    Settled,
    Expired,
    Disputed,
}

impl PromptStatus {
    pub fn is_active(&self) -> (r: bool)
        ensures
            r == (*self == PromptStatus::Pending),
    {
        match self {
            PromptStatus::Pending => true,
            _ => false,
        }
    }
}

/// A commitment to a prompt: the digest of the prompt and a salt, and the
/// prompt's own digest.
#[derive(Clone, Debug)]
pub struct PromptCommitment {
    pub commitment: Hash32,
    pub salt: Vec<u8>,
    pub prompt_hash: Hash32,
}

/// Whether `c` commits to `prompt`.
pub open spec fn commits(c: PromptCommitment, prompt: Seq<u8>) -> bool {
    sha256_spec(prompt + c.salt@) == c.commitment.0@
}

impl PromptCommitment {
    pub fn new(prompt: &[u8], salt: Vec<u8>) -> (r: Self)
        ensures
            r.commitment.0@ == sha256_spec(prompt@ + salt@),
            r.salt@ == salt@,
            r.prompt_hash.0@ == sha256_spec(prompt@),
    {
        let mut input: Vec<u8> = Vec::new();
        push_all(&mut input, prompt);
        push_all(&mut input, salt.as_slice());
        let commitment = sha256(input.as_slice());
        let prompt_hash = sha256(prompt);
        PromptCommitment { commitment: Hash32(commitment), salt, prompt_hash: Hash32(prompt_hash) }
    }

    /// Whether this commits to `prompt`.
    pub fn verify(&self, prompt: &[u8]) -> (r: bool)
        ensures
            r == commits(*self, prompt@),
    {
        let mut input: Vec<u8> = Vec::new();
        push_all(&mut input, prompt);
        push_all(&mut input, self.salt.as_slice());
        let computed = sha256(input.as_slice());
        bytes32_eq(&computed, &self.commitment.0)
    }
}

/// A commitment made for a prompt verifies against that prompt.
pub proof fn lemma_commitment_verifies(prompt: Seq<u8>, c: PromptCommitment)
    requires
        c.commitment.0@ == sha256_spec(prompt + c.salt@),
    ensures
        commits(c, prompt),
{
}

#[derive(Clone, Debug)]
pub struct ReceiptEntry {
    pub receipt_id: Hash32,
    pub prompt_id: Hash32,
    pub model_id: Hash32,
    pub operator: Address,
    pub inference_output: Vec<u8>,
    pub gas_used: u64,
    pub fee: u128,
    pub validated: bool,
    pub created_at: u64,
}

impl ReceiptEntry {
    /// An unvalidated entry whose id digests the prompt, the operator and the
    /// output.
    pub fn new(
        prompt_id: Hash32,
        model_id: Hash32,
        operator: Address,
        inference_output: Vec<u8>,
        gas_used: u64,
        fee: u128,
    ) -> (r: Self)
        ensures
            r.receipt_id.0@ == sha256_spec(prompt_id.0@ + operator.0@ + inference_output@),
            r.prompt_id == prompt_id && r.model_id == model_id && r.operator == operator,
            r.inference_output == inference_output && r.gas_used == gas_used && r.fee == fee,
            !r.validated && r.created_at == 0,
    {
        let mut input: Vec<u8> = Vec::new();
        push_all(&mut input, prompt_id.0.as_slice());
        push_all(&mut input, operator.0.as_slice());
        push_all(&mut input, inference_output.as_slice());
        let receipt_id = sha256(input.as_slice());
        ReceiptEntry {
            receipt_id: Hash32(receipt_id),
            prompt_id,
            model_id,
            operator,
            inference_output,
            gas_used,
            fee,
            validated: false,
            created_at: 0,
        }
    }
}

#[derive(Clone, Copy, Debug, PartialEq, Eq, Structural)]
pub struct RevenueDistribution {
    pub operator_amount: u128,
    pub owner_amount: u128,
    pub shard_provider_amount: u128,
    pub validator_amount: u128,
    pub treasury_amount: u128,
}

/// The part of `fee` that `bp` basis points give, rounded down.
pub open spec fn bp_part(fee: u128, bp: u16) -> u128 {
    ((fee * bp) / 10000) as u128
}

/// The sum of a distribution's parts.
pub open spec fn parts_sum(d: RevenueDistribution) -> int {
    d.operator_amount + d.owner_amount + d.shard_provider_amount + d.validator_amount + d.treasury_amount
}

impl RevenueDistribution {
    /// Splits `total_fee` by `revenue_split`, each part rounded down.
    pub fn distribute(total_fee: u128, revenue_split: &RevenueSplit) -> (r: Self)
        requires
            total_fee * revenue_split.operator_basis_points <= u128::MAX,
            total_fee * revenue_split.owner_basis_points <= u128::MAX,
            total_fee * revenue_split.shard_provider_basis_points <= u128::MAX,
            total_fee * revenue_split.validator_basis_points <= u128::MAX,
            total_fee * revenue_split.treasury_basis_points <= u128::MAX,
        ensures
            r == (RevenueDistribution {
                operator_amount: bp_part(total_fee, revenue_split.operator_basis_points),
                owner_amount: bp_part(total_fee, revenue_split.owner_basis_points),
                shard_provider_amount: bp_part(total_fee, revenue_split.shard_provider_basis_points),
                validator_amount: bp_part(total_fee, revenue_split.validator_basis_points),
                treasury_amount: bp_part(total_fee, revenue_split.treasury_basis_points),
            }),
    {
        let operator_amount = (total_fee * revenue_split.operator_basis_points as u128) / 10000;
        let owner_amount = (total_fee * revenue_split.owner_basis_points as u128) / 10000;
        let shard_provider_amount = (total_fee * revenue_split.shard_provider_basis_points as u128) / 10000;
        let validator_amount = (total_fee * revenue_split.validator_basis_points as u128) / 10000;
        let treasury_amount = (total_fee * revenue_split.treasury_basis_points as u128) / 10000;
        RevenueDistribution { operator_amount, owner_amount, shard_provider_amount, validator_amount, treasury_amount }
    }

    /// The sum of the parts, saturating.
    pub fn total(&self) -> (r: u128)
        ensures
            r == self.operator_amount.saturating_add(self.owner_amount).saturating_add(
                self.shard_provider_amount,
            ).saturating_add(self.validator_amount).saturating_add(self.treasury_amount),
            parts_sum(*self) <= u128::MAX ==> r == parts_sum(*self),
    {
        self.operator_amount.saturating_add(self.owner_amount).saturating_add(self.shard_provider_amount).saturating_add(
            self.validator_amount,
        ).saturating_add(self.treasury_amount)
    }
}

/// With a split of the whole fee, the parts never exceed the fee, and
/// rounding loses less than one token per part.
pub proof fn lemma_distribution_bounded(fee: u128, s: RevenueSplit)
    requires
        s.operator_basis_points + s.owner_basis_points + s.shard_provider_basis_points + s.validator_basis_points
            + s.treasury_basis_points == 10000,
    ensures
        ({
            let sum = bp_part(fee, s.operator_basis_points) + bp_part(fee, s.owner_basis_points) + bp_part(
                fee,
                s.shard_provider_basis_points,
            ) + bp_part(fee, s.validator_basis_points) + bp_part(fee, s.treasury_basis_points);
            sum <= fee && fee - sum < 5
        }),
{
    let a = s.operator_basis_points as int;
    let b = s.owner_basis_points as int;
    let c = s.shard_provider_basis_points as int;
    let d = s.validator_basis_points as int;
    let e = s.treasury_basis_points as int;
    let f = fee as int;
    assert(f * a / 10000 <= u128::MAX && f * b / 10000 <= u128::MAX && f * c / 10000 <= u128::MAX && f * d / 10000
        <= u128::MAX && f * e / 10000 <= u128::MAX) by (nonlinear_arith)
        requires
            0 <= a <= 10000,
            0 <= b <= 10000,
            0 <= c <= 10000,
            0 <= d <= 10000,
            0 <= e <= 10000,
            0 <= f <= u128::MAX,
    ;
    assert(f * a / 10000 + f * b / 10000 + f * c / 10000 + f * d / 10000 + f * e / 10000 <= f) by (nonlinear_arith)
        requires
            a + b + c + d + e == 10000,
            a >= 0,
            b >= 0,
            c >= 0,
            d >= 0,
            e >= 0,
            f >= 0,
    ;
    assert(f - (f * a / 10000 + f * b / 10000 + f * c / 10000 + f * d / 10000 + f * e / 10000) < 5) by (nonlinear_arith)
        requires
            a + b + c + d + e == 10000,
            a >= 0,
            b >= 0,
            c >= 0,
            d >= 0,
            e >= 0,
            f >= 0,
    ;
}

} // verus!
