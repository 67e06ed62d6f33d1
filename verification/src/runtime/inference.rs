//! Runtime inference: prompts move from submission through escrow lock and
//! execution to completion; receipts are recorded and verified, and
//! settlements split a prompt's fee by a model's revenue split.

use vstd::prelude::*;
use crate::bytes::{le_bytes, push_all, push_le};
use crate::digest::{sha256, sha256_spec};
use crate::kernel::{Address, Hash32};
use crate::runtime::RuntimeError;
use crate::runtime::model_registry::RevenueSplit;
use crate::table::{Table, TableKey};

verus! {

#[derive(Clone, Copy, Debug, PartialEq, Eq, Structural)]
pub enum PromptState {
    Submitted,
    Locked,
    Executing,
    Completed,
    Failed,
}

#[derive(Clone, Debug)]
pub struct Prompt {
    pub prompt_id: Hash32,
    pub model_id: Hash32,
    pub version: u32,
    pub sender: Address,
    pub prompt_data: Vec<u8>,
    pub state: PromptState,
    pub escrow_amount: u128,
    pub fee: u64,
    pub submitted_at: u64,
}

#[derive(Clone, Debug)]
pub struct Receipt {
    pub receipt_id: Hash32,
    pub prompt_id: Hash32,
    pub operator: Address,
    pub inference_output: Vec<u8>,
    pub execution_proof: Vec<u8>,
    pub submitted_at: u64,
    pub verified: bool,
}

#[derive(Clone, Copy, Debug)]
pub struct InferenceSettlement {
    pub receipt_id: Hash32,
    pub prompt_id: Hash32,
    pub model_id: Hash32,
    pub total_fee: u128,
    pub model_owner_amount: u128,
    pub operator_amount: u128,
    pub shard_provider_amount: u128,
    pub validator_amount: u128,
    pub vault_amount: u128,
    pub settled: bool,
}

/// What the module holds.
pub ghost struct RuntimeInferenceView {
    pub prompts: Map<Seq<u8>, Prompt>,
    pub receipts: Map<Seq<u8>, Receipt>,
    pub settlements: Map<Seq<u8>, InferenceSettlement>,
    pub prompt_counter: u64,
    pub receipt_counter: u64,
}

pub struct InferenceModule {
    prompts: Table<Hash32, Prompt>,
    receipts: Table<Hash32, Receipt>,
    settlements: Table<Hash32, InferenceSettlement>,
    prompt_counter: u64,
    receipt_counter: u64,
}

impl View for InferenceModule {
    type V = RuntimeInferenceView;

    closed spec fn view(&self) -> RuntimeInferenceView {
        RuntimeInferenceView {
            prompts: self.prompts@,
            receipts: self.receipts@,
            settlements: self.settlements@,
            prompt_counter: self.prompt_counter,
            receipt_counter: self.receipt_counter,
        }
    }
}

/// The bytes digested into the id of the `counter`-th prompt.
pub open spec fn prompt_id_input(counter: u64, model_id: Hash32, data: Seq<u8>) -> Seq<u8> {
    le_bytes(counter as nat, 8) + model_id.0@ + data
}

/// The bytes digested into the id of the `counter`-th receipt.
pub open spec fn receipt_id_input(counter: u64, prompt_id: Hash32, output: Seq<u8>) -> Seq<u8> {
    le_bytes(counter as nat, 8) + prompt_id.0@ + output
}

/// The part of `fee` that `bps` basis points give.
pub open spec fn bps_share(fee: u64, bps: u16) -> u128 {
    ((fee * bps) / 10000) as u128
}

/// The settlement of a receipt for a prompt of fee `fee` under `split`.
pub open spec fn settlement_for(receipt_id: Hash32, prompt_id: Hash32, model_id: Hash32, fee: u64, split: RevenueSplit) -> InferenceSettlement {
    InferenceSettlement {
        receipt_id,
        prompt_id,
        model_id,
        total_fee: fee as u128,
        model_owner_amount: bps_share(fee, split.model_owner_bps),
        operator_amount: bps_share(fee, split.operator_bps),
        shard_provider_amount: bps_share(fee, split.shard_provider_bps),
        validator_amount: bps_share(fee, split.validator_bps),
        vault_amount: bps_share(fee, split.vault_bps),
        settled: false,
    }
}

proof fn lemma_fee_times_bps(fee: u64, bps: u16)
    ensures
        0 <= fee * bps <= 0xffff_ffff_ffff_ffff * 0xffff,
{
    assert(0 <= fee * bps <= 0xffff_ffff_ffff_ffff * 0xffff) by (nonlinear_arith)
        requires
            fee <= 0xffff_ffff_ffff_ffff,
            bps <= 0xffff,
    ;
}

/// The view with the prompt under `id` replaced.
pub open spec fn with_prompt(v: RuntimeInferenceView, id: Hash32, p: Prompt) -> RuntimeInferenceView {
    RuntimeInferenceView { prompts: v.prompts.insert(id.0@, p), ..v }
}

impl InferenceModule {
    pub closed spec fn wf(&self) -> bool {
        self.prompts.wf() && self.receipts.wf() && self.settlements.wf()
    }

    pub fn new() -> (r: Self)
        ensures
            r.wf(),
            r@.prompts == Map::<Seq<u8>, Prompt>::empty(),
            r@.receipts == Map::<Seq<u8>, Receipt>::empty(),
            r@.settlements == Map::<Seq<u8>, InferenceSettlement>::empty(),
            r@.prompt_counter == 0 && r@.receipt_counter == 0,
    {
        InferenceModule {
            prompts: Table::new(),
            receipts: Table::new(),
            settlements: Table::new(),
            prompt_counter: 0,
            receipt_counter: 0,
        }
    }

    /// Records a submitted prompt without escrow; its id digests the new
    /// counter value, the model and the prompt data.
    pub fn submit_prompt(
        &mut self,
        model_id: Hash32,
        version: u32,
        sender: Address,
        prompt_data: Vec<u8>,
        fee: u64,
        current_height: u64,
    ) -> (r: Result<Hash32, RuntimeError>)
        requires
            old(self).wf(),
            old(self)@.prompt_counter < u64::MAX,
        ensures
            final(self).wf(),
            r matches Ok(id) && {
                let counter = (old(self)@.prompt_counter + 1) as u64;
                &&& id.0@ == sha256_spec(prompt_id_input(counter, model_id, prompt_data@))
                &&& final(self)@ == (RuntimeInferenceView {
                    prompts: old(self)@.prompts.insert(
                        id.0@,
                        Prompt {
                            prompt_id: id,
                            model_id,
                            version,
                            sender,
                            prompt_data,
                            state: PromptState::Submitted,
                            escrow_amount: 0,
                            fee,
                            submitted_at: current_height,
                        },
                    ),
                    prompt_counter: counter,
                    ..old(self)@
                })
            },
    {
        self.prompt_counter = self.prompt_counter + 1;
        let mut data: Vec<u8> = Vec::new();
        push_le(&mut data, self.prompt_counter as u128, 8);
        push_all(&mut data, model_id.0.as_slice());
        push_all(&mut data, prompt_data.as_slice());
        let id = Hash32(sha256(data.as_slice()));
        let prompt = Prompt {
            prompt_id: id,
            model_id,
            version,
            sender,
            prompt_data,
            state: PromptState::Submitted,
            escrow_amount: 0,
            fee,
            submitted_at: current_height,
        };
        self.prompts.insert(id, prompt);
        Ok(id)
    }

    /// Locks a submitted prompt with its escrow.
    pub fn lock_prompt(&mut self, prompt_id: &Hash32, escrow_amount: u128) -> (r: Result<(), RuntimeError>)
        requires
            old(self).wf(),
        ensures
            final(self).wf(),
            r is Ok <==> old(self)@.prompts.dom().contains(prompt_id.0@) && old(self)@.prompts[prompt_id.0@].state
                == PromptState::Submitted,
            r is Err ==> r == Err::<(), RuntimeError>(RuntimeError::InvalidState) && *final(self) == *old(self),
            r is Ok ==> final(self)@ == with_prompt(
                old(self)@,
                *prompt_id,
                Prompt { state: PromptState::Locked, escrow_amount, ..old(self)@.prompts[prompt_id.0@] },
            ),
    {
        match self.prompts.get(prompt_id) {
            None => {
                return Err(RuntimeError::InvalidState);
            },
            Some(p) => {
                if p.state != PromptState::Submitted {
                    return Err(RuntimeError::InvalidState);
                }
            },
        }
        match self.prompts.get_mut(prompt_id) {
            Some(p) => {
                p.state = PromptState::Locked;
                p.escrow_amount = escrow_amount;
            },
            None => {},
        }
        Ok(())
    }

    /// Starts executing a locked prompt.
    pub fn execute_prompt(&mut self, prompt_id: &Hash32) -> (r: Result<(), RuntimeError>)
        requires
            old(self).wf(),
        ensures
            final(self).wf(),
            r is Ok <==> old(self)@.prompts.dom().contains(prompt_id.0@) && old(self)@.prompts[prompt_id.0@].state
                == PromptState::Locked,
            r is Err ==> r == Err::<(), RuntimeError>(RuntimeError::InvalidState) && *final(self) == *old(self),
            r is Ok ==> final(self)@ == with_prompt(
                old(self)@,
                *prompt_id,
                Prompt { state: PromptState::Executing, ..old(self)@.prompts[prompt_id.0@] },
            ),
    {
        match self.prompts.get(prompt_id) {
            None => {
                return Err(RuntimeError::InvalidState);
            },
            Some(p) => {
                if p.state != PromptState::Locked {
                    return Err(RuntimeError::InvalidState);
                }
            },
        }
        match self.prompts.get_mut(prompt_id) {
            Some(p) => {
                p.state = PromptState::Executing;
            },
            None => {},
        }
        Ok(())
    }

    /// Records the receipt of an executing prompt, whose id digests the new
    /// receipt counter value, the prompt and the output; the prompt is then
    /// completed.
    pub fn submit_receipt(
        &mut self,
        prompt_id: &Hash32,
        operator: Address,
        inference_output: Vec<u8>,
        execution_proof: Vec<u8>,
        current_height: u64,
    ) -> (r: Result<Hash32, RuntimeError>)
        requires
            old(self).wf(),
            old(self)@.receipt_counter < u64::MAX,
        ensures
            final(self).wf(),
            r is Ok <==> old(self)@.prompts.dom().contains(prompt_id.0@) && old(self)@.prompts[prompt_id.0@].state
                == PromptState::Executing,
            r is Err ==> r == Err::<Hash32, RuntimeError>(RuntimeError::InvalidState) && *final(self) == *old(self),
            r matches Ok(id) ==> {
                let counter = (old(self)@.receipt_counter + 1) as u64;
                &&& id.0@ == sha256_spec(receipt_id_input(counter, *prompt_id, inference_output@))
                &&& final(self)@ == (RuntimeInferenceView {
                    prompts: old(self)@.prompts.insert(
                        prompt_id.0@,
                        Prompt { state: PromptState::Completed, ..old(self)@.prompts[prompt_id.0@] },
                    ),
                    receipts: old(self)@.receipts.insert(
                        id.0@,
                        Receipt {
                            receipt_id: id,
                            prompt_id: *prompt_id,
                            operator,
                            inference_output,
                            execution_proof,
                            submitted_at: current_height,
                            verified: false,
                        },
                    ),
                    receipt_counter: counter,
                    ..old(self)@
                })
            },
    {
        match self.prompts.get(prompt_id) {
            None => {
                return Err(RuntimeError::InvalidState);
            },
            Some(p) => {
                if p.state != PromptState::Executing {
                    return Err(RuntimeError::InvalidState);
                }
            },
        }
        self.receipt_counter = self.receipt_counter + 1;
        let mut data: Vec<u8> = Vec::new();
        push_le(&mut data, self.receipt_counter as u128, 8);
        push_all(&mut data, prompt_id.0.as_slice());
        push_all(&mut data, inference_output.as_slice());
        let id = Hash32(sha256(data.as_slice()));
        let receipt = Receipt {
            receipt_id: id,
            prompt_id: *prompt_id,
            operator,
            inference_output,
            execution_proof,
            submitted_at: current_height,
            verified: false,
        };
        self.receipts.insert(id, receipt);
        match self.prompts.get_mut(prompt_id) {
            Some(p) => {
                p.state = PromptState::Completed;
            },
            None => {},
        }
        Ok(id)
    }

    /// Marks a receipt verified.
    pub fn verify_receipt(&mut self, receipt_id: &Hash32) -> (r: Result<(), RuntimeError>)
        requires
            old(self).wf(),
        ensures
            final(self).wf(),
            r is Ok <==> old(self)@.receipts.dom().contains(receipt_id.0@),
            r is Err ==> r == Err::<(), RuntimeError>(RuntimeError::InvalidState) && *final(self) == *old(self),
            r is Ok ==> final(self)@ == (RuntimeInferenceView {
                receipts: old(self)@.receipts.insert(
                    receipt_id.0@,
                    Receipt { verified: true, ..old(self)@.receipts[receipt_id.0@] },
                ),
                ..old(self)@
            }),
    {
        match self.receipts.get_mut(receipt_id) {
            Some(r) => {
                r.verified = true;
                Ok(())
            },
            None => Err(RuntimeError::InvalidState),
        }
    }

    /// Splits the fee of a receipt's prompt by `revenue_split` and records
    /// the (unsettled) settlement under the receipt's id.
    pub fn create_settlement(&mut self, receipt_id: &Hash32, model_id: &Hash32, revenue_split: &RevenueSplit) -> (r: Result<
        InferenceSettlement,
        RuntimeError,
    >)
        requires
            old(self).wf(),
        ensures
            final(self).wf(),
            r is Ok <==> old(self)@.receipts.dom().contains(receipt_id.0@) && old(self)@.prompts.dom().contains(
                old(self)@.receipts[receipt_id.0@].prompt_id.0@,
            ),
            r is Err ==> r == Err::<InferenceSettlement, RuntimeError>(RuntimeError::InvalidState) && *final(self)
                == *old(self),
            r matches Ok(s) ==> {
                let rc = old(self)@.receipts[receipt_id.0@];
                let p = old(self)@.prompts[rc.prompt_id.0@];
                &&& s == settlement_for(*receipt_id, rc.prompt_id, *model_id, p.fee, *revenue_split)
                &&& final(self)@ == (RuntimeInferenceView {
                    settlements: old(self)@.settlements.insert(receipt_id.0@, s),
                    ..old(self)@
                })
            },
    {
        let prompt_id = match self.receipts.get(receipt_id) {
            None => {
                return Err(RuntimeError::InvalidState);
            },
            Some(rc) => rc.prompt_id,
        };
        let fee = match self.prompts.get(&prompt_id) {
            None => {
                return Err(RuntimeError::InvalidState);
            },
            Some(p) => p.fee,
        };
        let total_fee = fee as u128;
        proof {
            lemma_fee_times_bps(fee, revenue_split.model_owner_bps);
            lemma_fee_times_bps(fee, revenue_split.operator_bps);
            lemma_fee_times_bps(fee, revenue_split.shard_provider_bps);
            lemma_fee_times_bps(fee, revenue_split.validator_bps);
            lemma_fee_times_bps(fee, revenue_split.vault_bps);
        }
        let settlement = InferenceSettlement {
            receipt_id: *receipt_id,
            prompt_id,
            model_id: *model_id,
            total_fee,
            model_owner_amount: (total_fee * revenue_split.model_owner_bps as u128) / 10000,
            operator_amount: (total_fee * revenue_split.operator_bps as u128) / 10000,
            shard_provider_amount: (total_fee * revenue_split.shard_provider_bps as u128) / 10000,
            validator_amount: (total_fee * revenue_split.validator_bps as u128) / 10000,
            vault_amount: (total_fee * revenue_split.vault_bps as u128) / 10000,
            settled: false,
        };
        self.settlements.insert(*receipt_id, settlement);
        Ok(settlement)
    }

    pub fn mark_settled(&mut self, receipt_id: &Hash32) -> (r: Result<(), RuntimeError>)
        requires
            old(self).wf(),
        ensures
            final(self).wf(),
            r is Ok <==> old(self)@.settlements.dom().contains(receipt_id.0@),
            r is Err ==> r == Err::<(), RuntimeError>(RuntimeError::InvalidState) && *final(self) == *old(self),
            r is Ok ==> final(self)@ == (RuntimeInferenceView {
                settlements: old(self)@.settlements.insert(
                    receipt_id.0@,
                    InferenceSettlement { settled: true, ..old(self)@.settlements[receipt_id.0@] },
                ),
                ..old(self)@
            }),
    {
        match self.settlements.get_mut(receipt_id) {
            Some(s) => {
                s.settled = true;
                Ok(())
            },
            None => Err(RuntimeError::InvalidState),
        }
    }

    pub fn get_prompt(&self, prompt_id: &Hash32) -> (r: Option<&Prompt>)
        requires
            self.wf(),
        ensures
            r is Some <==> self@.prompts.dom().contains(prompt_id.0@),
            r matches Some(p) ==> *p == self@.prompts[prompt_id.0@],
    {
        self.prompts.get(prompt_id)
    }

    pub fn get_receipt(&self, receipt_id: &Hash32) -> (r: Option<&Receipt>)
        requires
            self.wf(),
        ensures
            r is Some <==> self@.receipts.dom().contains(receipt_id.0@),
            r matches Some(x) ==> *x == self@.receipts[receipt_id.0@],
    {
        self.receipts.get(receipt_id)
    }

    pub fn get_settlement(&self, receipt_id: &Hash32) -> (r: Option<&InferenceSettlement>)
        requires
            self.wf(),
        ensures
            r is Some <==> self@.settlements.dom().contains(receipt_id.0@),
            r matches Some(s) ==> *s == self@.settlements[receipt_id.0@],
    {
        self.settlements.get(receipt_id)
    }
}

impl Default for InferenceModule {
    fn default() -> (r: Self)
        ensures
            r.wf(),
            r@.prompts == Map::<Seq<u8>, Prompt>::empty(),
            r@.receipts == Map::<Seq<u8>, Receipt>::empty(),
            r@.settlements == Map::<Seq<u8>, InferenceSettlement>::empty(),
            r@.prompt_counter == 0 && r@.receipt_counter == 0,
    {
        InferenceModule::new()
    }
}

} // verus!
