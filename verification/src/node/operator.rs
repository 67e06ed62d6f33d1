//! The inference operator of a node: it accepts prompts for models it
//! serves, runs them, produces receipts and checks them against the
//! economic rules before they are submitted.

use vstd::prelude::*;
use crate::bytes::bytes32_eq;
use crate::kernel::{Address, Hash32, empty_hash32};
use crate::runtime::model_registry::{Model, ModelState};
use crate::primitives::api::PromptCommitment;
use crate::table::{Table, TableKey};

verus! {

#[derive(Clone, Copy, Debug, PartialEq, Eq, Structural)]
pub enum OperatorError {
    PromptVerificationFailed,
    ModelNotFound,
    DeadlineExpired,
    ExecutionFailed,
    ReceiptSubmissionFailed,
    EconomicComplianceViolation,
}

/// How prompts reach the operator.
#[derive(Clone, Copy, Debug, PartialEq, Eq, Structural)]
pub enum RelayMode {
    RelayTransport,
    DirectConnection,
}

/// How the operator prices its service.
#[derive(Clone, Copy, Debug, PartialEq, Eq, Structural)]
pub enum PricingPolicy {
    MarketBased,
    FixedRate,
    Dynamic,
}

/// Resource limits of one execution.
#[derive(Clone, Copy, Debug, PartialEq, Eq, Structural)]
pub struct ComputeLimits {
    pub max_input_tokens: u32,
    pub max_output_tokens: u32,
    pub max_compute_units: u64,
    pub max_execution_time_ms: u64,
}

impl Default for ComputeLimits {
    fn default() -> (r: Self)
        ensures
            r == (ComputeLimits {
                max_input_tokens: 4096,
                max_output_tokens: 2048,
                max_compute_units: 1000000,
                max_execution_time_ms: 30000,
            }),
    {
        ComputeLimits {
            max_input_tokens: 4096,
            max_output_tokens: 2048,
            max_compute_units: 1000000,
            max_execution_time_ms: 30000,
        }
    }
}

#[derive(Clone, Debug)]
pub struct OperatorConfig {
    pub operator_address: Address,
    pub supported_models: Vec<Hash32>,
    pub max_concurrent_executions: usize,
    pub relay_mode: RelayMode,
    pub pricing_policy: PricingPolicy,
    pub compute_limits: ComputeLimits,
}

impl Default for OperatorConfig {
    fn default() -> (r: Self)
        ensures
            r.operator_address.0@ == crate::bytes::zeros32(),
            r.supported_models@.len() == 0,
            r.max_concurrent_executions == 4,
            r.relay_mode == RelayMode::RelayTransport,
            r.pricing_policy == PricingPolicy::MarketBased,
            r.compute_limits == (ComputeLimits {
                max_input_tokens: 4096,
                max_output_tokens: 2048,
                max_compute_units: 1000000,
                max_execution_time_ms: 30000,
            }),
    {
        OperatorConfig {
            operator_address: Address(crate::bytes::zero32()),
            supported_models: Vec::new(),
            max_concurrent_executions: 4,
            relay_mode: RelayMode::RelayTransport,
            pricing_policy: PricingPolicy::MarketBased,
            compute_limits: ComputeLimits::default(),
        }
    }
}

#[derive(Clone, Copy, Debug, PartialEq, Eq, Structural)]
pub enum ExecutionStatus {
    Pending,
    Executing,
    Completed,
    Failed,
    ReceiptSubmitted,
}

/// The operator's record of one prompt it has taken.
#[derive(Clone, Copy, Debug)]
pub struct PromptExecution {
    pub prompt_id: Hash32,
    pub model_id: Hash32,
    pub client_address: Address,
    pub status: ExecutionStatus,
    pub start_time: u64,
    pub input_tokens: u32,
    pub output_tokens: u32,
    pub compute_units: u64,
    pub deadline_height: u64,
    pub relay_mode: RelayMode,
}

/// A prompt as the operator receives it.
#[derive(Clone, Debug)]
pub struct Prompt {
    pub prompt_id: Hash32,
    pub model_id: Hash32,
    pub client: Address,
    pub input_tokens: u32,
    pub max_output_tokens: u32,
    pub compute_limit: u64,
    pub pricing_mode: u8,
    pub relay_mode: u8,
    pub deadline_height: u64,
    pub prompt_commitment: PromptCommitment,
    pub escrow_amount: u128,
    pub escrow_release_height: u64,
}

/// The receipt of an execution, as the operator submits it.
#[derive(Clone, Debug)]
pub struct Receipt {
    pub receipt_id: Hash32,
    pub prompt_id: Hash32,
    pub model_id: Hash32,
    pub operator: Address,
    pub client: Address,
    pub input_tokens: u32,
    pub output_tokens: u32,
    pub compute_units: u64,
    pub output_commitment: Hash32,
    pub timestamp: u64,
    pub signature: Vec<u8>,
}

/// The states of models that the operator knows to be out of service. A
/// model of which no state is recorded is taken to be active.
#[derive(Clone, Debug)]
pub struct ModelRegistry {
    pub states: Table<Hash32, ModelState>,
}

/// Whether a registry with these recorded states counts `model_id` as active.
pub open spec fn model_active(states: Map<Seq<u8>, ModelState>, model_id: Hash32) -> bool {
    !states.dom().contains(model_id.0@) || states[model_id.0@] == ModelState::Active
}

impl ModelRegistry {
    pub fn new() -> (r: Self)
        ensures
            r.states.wf(),
            r.states@ == Map::<Seq<u8>, ModelState>::empty(),
    {
        ModelRegistry { states: Table::new() }
    }

    /// A registry with the state of each model of a runtime's registry.
    pub fn from_models(models: &Table<Hash32, Model>) -> (r: Self)
        requires
            models.wf(),
        ensures
            r.states.wf(),
            r.states@ == models@.map_values(|m: Model| m.state),
    {
        proof {
            models.lemma_view();
        }
        let ghost src = models.seq();
        let n = models.len();
        let mut states: Table<Hash32, ModelState> = Table::new();
        let mut i: usize = 0;
        while i < n
            invariant
                src == models.seq(),
                n == src.len(),
                i <= n,
                states.wf(),
                crate::table::distinct_keys(src),
                forall|k: Seq<u8>| #[trigger] states@.dom().contains(k) <==> exists|j: int| 0 <= j < i && src[j].0.kview() == k,
                forall|j: int| 0 <= j < i ==> #[trigger] states@[src[j].0.kview()] == src[j].1.state,
            decreases n - i,
        {
            let k = models.key_at(i);
            let m = models.value_at(i);
            states.insert(*k, m.state);
            proof {
                assert forall|j: int| 0 <= j < i + 1 implies #[trigger] states@[src[j].0.kview()] == src[j].1.state by {
                    if j < i {
                        assert(src[j].0.kview() != src[i as int].0.kview());
                    }
                }
                assert forall|kk: Seq<u8>| #[trigger] states@.dom().contains(kk) <==> exists|j: int| 0 <= j < i + 1 && src[j].0.kview() == kk by {
                    if states@.dom().contains(kk) && kk != src[i as int].0.kview() {
                        let j = choose|j: int| 0 <= j < i && src[j].0.kview() == kk;
                        assert(0 <= j < i + 1 && src[j].0.kview() == kk);
                    }
                    if exists|j: int| 0 <= j < i + 1 && src[j].0.kview() == kk {
                        let j = choose|j: int| 0 <= j < i + 1 && src[j].0.kview() == kk;
                        if j < i {
                            assert(exists|j2: int| 0 <= j2 < i && src[j2].0.kview() == kk);
                        }
                    }
                }
            }
            i = i + 1;
        }
        proof {
            assert forall|k: Seq<u8>| #[trigger] states@.dom().contains(k) <==> models@.dom().contains(k) by {
                if models@.dom().contains(k) {
                    let j = choose|j: int| 0 <= j < src.len() && src[j].0.kview() == k;
                    assert(exists|j2: int| 0 <= j2 < i && src[j2].0.kview() == k);
                }
                if states@.dom().contains(k) {
                    let j = choose|j: int| 0 <= j < i && src[j].0.kview() == k;
                    assert(models@.dom().contains(src[j].0.kview()));
                }
            }
            assert forall|k: Seq<u8>| #[trigger] states@.dom().contains(k) implies states@[k] == models@[k].state by {
                let j = choose|j: int| 0 <= j < i && src[j].0.kview() == k;
                assert(states@[src[j].0.kview()] == src[j].1.state);
            }
            assert(states@ =~= models@.map_values(|m: Model| m.state));
        }
        ModelRegistry { states }
    }

    /// Records the state of a model.
    pub fn set_model_state(&mut self, model_id: Hash32, state: ModelState)
        requires
            old(self).states.wf(),
        ensures
            final(self).states.wf(),
            final(self).states@ == old(self).states@.insert(model_id.0@, state),
    {
        self.states.insert(model_id, state);
    }

    /// Whether `model_id` is active: it has no recorded state, or the
    /// recorded state is `Active`.
    pub fn is_model_active(&self, model_id: &Hash32) -> (r: bool)
        requires
            self.states.wf(),
        ensures
            r == model_active(self.states@, *model_id),
    {
        match self.states.get(model_id) {
            Some(s) => *s == ModelState::Active,
            None => true,
        }
    }
}

/// Whether `m` occurs in `models`.
pub open spec fn supports(models: Seq<Hash32>, m: Hash32) -> bool {
    exists|i: int| 0 <= i < models.len() && models[i].0@ == m.0@
}

fn contains_hash(v: &Vec<Hash32>, h: &Hash32) -> (r: bool)
    ensures
        r == supports(v@, *h),
{
    let mut i: usize = 0;
    while i < v.len()
        invariant
            i <= v@.len(),
            forall|j: int| 0 <= j < i ==> v@[j].0@ != h.0@,
        decreases v@.len() - i,
    {
        if bytes32_eq(&v[i].0, &h.0) {
            return true;
        }
        i = i + 1;
    }
    false
}

/// Counts of the receipts the operator has checked.
#[derive(Clone, Copy, Debug, PartialEq, Eq, Structural)]
pub struct EconomicCompliance {
    pub valid_receipts: u64,
    pub invalid_receipts: u64,
    pub total_revenue: u128,
    pub compliance_violations: u64,
}

/// The most output tokens a receipt may claim for `input_tokens`.
pub open spec fn max_output_for(input_tokens: u32) -> int {
    input_tokens * 2
}

/// The most compute units a receipt may claim for `input_tokens`.
pub open spec fn max_compute_for(input_tokens: u32) -> int {
    input_tokens * 10000
}

/// Whether a receipt stays within the economic limits.
pub open spec fn receipt_compliant(r: Receipt) -> bool {
    r.output_tokens <= max_output_for(r.input_tokens) && r.compute_units <= max_compute_for(r.input_tokens)
}

impl EconomicCompliance {
    pub fn new() -> (r: Self)
        ensures
            r == (EconomicCompliance { valid_receipts: 0, invalid_receipts: 0, total_revenue: 0, compliance_violations: 0 }),
    {
        EconomicCompliance { valid_receipts: 0, invalid_receipts: 0, total_revenue: 0, compliance_violations: 0 }
    }

    /// Checks that a receipt claims at most twice its input tokens as output
    /// and at most 10 000 compute units per input token; counts the outcome.
    pub fn verify_receipt(&mut self, receipt: &Receipt) -> (r: Result<(), OperatorError>)
        requires
            receipt.input_tokens * 2 <= u32::MAX,
            old(self).valid_receipts < u64::MAX,
            old(self).compliance_violations < u64::MAX,
        ensures
            r is Ok <==> receipt_compliant(*receipt),
            r is Err ==> r == Err::<(), OperatorError>(OperatorError::EconomicComplianceViolation)
                && *final(self) == (EconomicCompliance {
                    compliance_violations: (old(self).compliance_violations + 1) as u64,
                    ..*old(self)
                }),
            r is Ok ==> *final(self) == (EconomicCompliance {
                valid_receipts: (old(self).valid_receipts + 1) as u64,
                ..*old(self)
            }),
    {
        if receipt.output_tokens > self.max_allowed_output_tokens(receipt.input_tokens) {
            self.compliance_violations = self.compliance_violations + 1;
            return Err(OperatorError::EconomicComplianceViolation);
        }
        if receipt.compute_units > self.max_allowed_compute_units(receipt.input_tokens) {
            self.compliance_violations = self.compliance_violations + 1;
            return Err(OperatorError::EconomicComplianceViolation);
        }
        self.valid_receipts = self.valid_receipts + 1;
        Ok(())
    }

    fn max_allowed_output_tokens(&self, input_tokens: u32) -> (r: u32)
        requires
            input_tokens * 2 <= u32::MAX,
        ensures
            r == max_output_for(input_tokens),
    {
        input_tokens * 2
    }

    fn max_allowed_compute_units(&self, input_tokens: u32) -> (r: u64)
        ensures
            r == max_compute_for(input_tokens),
    {
        input_tokens as u64 * 10000
    }
}

/// The inference operator: its configuration, the models' states, the
/// executions under way and those whose receipt was submitted.
pub struct InferenceOperator {
    pub config: OperatorConfig,
    pub model_registry: ModelRegistry,
    pub active_executions: Table<Hash32, PromptExecution>,
    pub execution_history: Vec<PromptExecution>,
    pub economic_compliance: EconomicCompliance,
}

/// The record that accepting `p` at `height` creates.
pub open spec fn new_execution(p: Prompt, height: u64, relay_mode: RelayMode) -> PromptExecution {
    PromptExecution {
        prompt_id: p.prompt_id,
        model_id: p.model_id,
        client_address: p.client,
        status: ExecutionStatus::Pending,
        start_time: height,
        input_tokens: p.input_tokens,
        output_tokens: 0,
        compute_units: 0,
        deadline_height: p.deadline_height,
        relay_mode,
    }
}

impl InferenceOperator {
    pub open spec fn wf(&self) -> bool {
        self.model_registry.states.wf() && self.active_executions.wf()
    }

    pub fn new(config: OperatorConfig, model_registry: ModelRegistry) -> (r: Self)
        requires
            model_registry.states.wf(),
        ensures
            r.wf(),
            r.config.operator_address == config.operator_address,
            r.config.supported_models@ == config.supported_models@,
            r.config.max_concurrent_executions == config.max_concurrent_executions,
            r.config.relay_mode == config.relay_mode,
            r.config.pricing_policy == config.pricing_policy,
            r.config.compute_limits == config.compute_limits,
            r.model_registry.states@ == model_registry.states@,
            r.active_executions@ == Map::<Seq<u8>, PromptExecution>::empty(),
            r.execution_history@.len() == 0,
            r.economic_compliance == (EconomicCompliance { valid_receipts: 0, invalid_receipts: 0, total_revenue: 0, compliance_violations: 0 }),
    {
        InferenceOperator {
            config,
            model_registry,
            active_executions: Table::new(),
            execution_history: Vec::new(),
            economic_compliance: EconomicCompliance::new(),
        }
    }

    /// New prompts announced on chain at `current_height`; this operator
    /// watches no chain, so there are none.
    pub fn monitor_events(&mut self, current_height: u64) -> (r: Vec<Hash32>)
        ensures
            r@.len() == 0,
            *final(self) == *old(self),
    {
        Vec::new()
    }

    /// Takes `prompt` for execution when its model is active and served,
    /// its deadline lies after `current_height` and a slot is free. A prompt
    /// id already taken is taken again, its record replaced.
    pub fn accept_prompt(&mut self, prompt: &Prompt, current_height: u64) -> (r: Result<(), OperatorError>)
        requires
            old(self).wf(),
        ensures
            final(self).wf(),
            !model_active(old(self).model_registry.states@, prompt.model_id) ==> r == Err::<(), OperatorError>(
                OperatorError::ModelNotFound,
            ),
            model_active(old(self).model_registry.states@, prompt.model_id) && !supports(
                old(self).config.supported_models@,
                prompt.model_id,
            ) ==> r == Err::<(), OperatorError>(OperatorError::ModelNotFound),
            model_active(old(self).model_registry.states@, prompt.model_id) && supports(
                old(self).config.supported_models@,
                prompt.model_id,
            ) && current_height >= prompt.deadline_height ==> r == Err::<(), OperatorError>(
                OperatorError::DeadlineExpired,
            ),
            model_active(old(self).model_registry.states@, prompt.model_id) && supports(
                old(self).config.supported_models@,
                prompt.model_id,
            ) && current_height < prompt.deadline_height && old(self).active_executions@.dom().len()
                >= old(self).config.max_concurrent_executions ==> r == Err::<(), OperatorError>(
                OperatorError::ExecutionFailed,
            ),
            r is Err ==> *final(self) == *old(self),
            r is Ok <==> model_active(old(self).model_registry.states@, prompt.model_id) && supports(
                old(self).config.supported_models@,
                prompt.model_id,
            ) && current_height < prompt.deadline_height && old(self).active_executions@.dom().len()
                < old(self).config.max_concurrent_executions,
            r is Ok ==> final(self).active_executions@ == old(self).active_executions@.insert(
                prompt.prompt_id.0@,
                new_execution(*prompt, current_height, old(self).config.relay_mode),
            ) && final(self).config == old(self).config && final(self).model_registry == old(self).model_registry && final(self).execution_history == old(self).execution_history
                && final(self).economic_compliance == old(self).economic_compliance,
    {
        if !self.model_registry.is_model_active(&prompt.model_id) {
            return Err(OperatorError::ModelNotFound);
        }
        if !contains_hash(&self.config.supported_models, &prompt.model_id) {
            return Err(OperatorError::ModelNotFound);
        }
        if current_height >= prompt.deadline_height {
            return Err(OperatorError::DeadlineExpired);
        }
        if self.active_executions.len() >= self.config.max_concurrent_executions {
            return Err(OperatorError::ExecutionFailed);
        }
        let execution = PromptExecution {
            prompt_id: prompt.prompt_id,
            model_id: prompt.model_id,
            client_address: prompt.client,
            status: ExecutionStatus::Pending,
            start_time: current_height,
            input_tokens: prompt.input_tokens,
            output_tokens: 0,
            compute_units: 0,
            deadline_height: prompt.deadline_height,
            relay_mode: self.config.relay_mode,
        };
        self.active_executions.insert(prompt.prompt_id, execution);
        Ok(())
    }

    /// Runs a pending prompt: its record becomes completed with 512 output
    /// tokens and 10 000 compute units, and the output is 1024 zero bytes.
    pub fn execute_prompt(&mut self, prompt_id: &Hash32) -> (r: Result<Vec<u8>, OperatorError>)
        requires
            old(self).wf(),
        ensures
            final(self).wf(),
            !old(self).active_executions@.dom().contains(prompt_id.0@) ==> r == Err::<Vec<u8>, OperatorError>(
                OperatorError::PromptVerificationFailed,
            ),
            old(self).active_executions@.dom().contains(prompt_id.0@) && old(self).active_executions@[prompt_id.0@].status != ExecutionStatus::Pending ==> r
                == Err::<Vec<u8>, OperatorError>(OperatorError::ExecutionFailed),
            r is Err ==> *final(self) == *old(self),
            r is Ok <==> old(self).active_executions@.dom().contains(prompt_id.0@) && old(self).active_executions@[prompt_id.0@].status == ExecutionStatus::Pending,
            r matches Ok(out) ==> out@ == Seq::new(1024, |i: int| 0u8) && final(self).active_executions@
                == old(self).active_executions@.insert(
                prompt_id.0@,
                PromptExecution {
                    status: ExecutionStatus::Completed,
                    output_tokens: 512,
                    compute_units: 10000,
                    ..old(self).active_executions@[prompt_id.0@]
                },
            ) && final(self).config == old(self).config && final(self).model_registry == old(self).model_registry && final(self).execution_history == old(self).execution_history
                && final(self).economic_compliance == old(self).economic_compliance,
    {
        match self.active_executions.get(prompt_id) {
            None => {
                return Err(OperatorError::PromptVerificationFailed);
            },
            Some(e) => {
                if e.status != ExecutionStatus::Pending {
                    return Err(OperatorError::ExecutionFailed);
                }
            },
        }
        match self.active_executions.get_mut(prompt_id) {
            Some(execution) => {
                execution.status = ExecutionStatus::Executing;
                let output: Vec<u8> = vec![0u8; 1024];
                execution.output_tokens = 512;
                execution.compute_units = 10000;
                execution.status = ExecutionStatus::Completed;
                assert(output@ =~= Seq::new(1024, |i: int| 0u8));
                Ok(output)
            },
            None => Err(OperatorError::PromptVerificationFailed),
        }
    }

    /// The receipt of a completed execution, signed by nobody yet and with
    /// zero receipt id and output commitment.
    pub fn generate_receipt(&self, prompt_id: &Hash32) -> (r: Result<Receipt, OperatorError>)
        requires
            self.wf(),
        ensures
            !self.active_executions@.dom().contains(prompt_id.0@) ==> r == Err::<Receipt, OperatorError>(
                OperatorError::PromptVerificationFailed,
            ),
            self.active_executions@.dom().contains(prompt_id.0@) && self.active_executions@[prompt_id.0@].status
                != ExecutionStatus::Completed ==> r == Err::<Receipt, OperatorError>(OperatorError::ExecutionFailed),
            r is Ok <==> self.active_executions@.dom().contains(prompt_id.0@)
                && self.active_executions@[prompt_id.0@].status == ExecutionStatus::Completed,
            r matches Ok(rc) ==> ({
                let e = self.active_executions@[prompt_id.0@];
                &&& rc.receipt_id == empty_hash32()
                &&& rc.prompt_id == *prompt_id
                &&& rc.model_id == e.model_id
                &&& rc.operator == self.config.operator_address
                &&& rc.client == e.client_address
                &&& rc.input_tokens == e.input_tokens
                &&& rc.output_tokens == e.output_tokens
                &&& rc.compute_units == e.compute_units
                &&& rc.output_commitment == empty_hash32()
                &&& rc.timestamp == e.start_time
                &&& rc.signature@.len() == 0
            }),
    {
        let execution = match self.active_executions.get(prompt_id) {
            Some(e) => e,
            None => {
                return Err(OperatorError::PromptVerificationFailed);
            },
        };
        if execution.status != ExecutionStatus::Completed {
            return Err(OperatorError::ExecutionFailed);
        }
        Ok(Receipt {
            receipt_id: Hash32::empty(),
            prompt_id: *prompt_id,
            model_id: execution.model_id,
            operator: self.config.operator_address,
            client: execution.client_address,
            input_tokens: execution.input_tokens,
            output_tokens: execution.output_tokens,
            compute_units: execution.compute_units,
            output_commitment: Hash32::empty(),
            timestamp: execution.start_time,
            signature: Vec::new(),
        })
    }
    /// Submits the receipt of an execution under way before its deadline:
    /// the receipt is checked (see `EconomicCompliance::verify_receipt`), and
    /// on success the execution moves to the history, marked submitted.
    pub fn submit_receipt(&mut self, receipt: Receipt, current_height: u64) -> (r: Result<(), OperatorError>)
        requires
            old(self).wf(),
            receipt.input_tokens * 2 <= u32::MAX,
            old(self).economic_compliance.valid_receipts < u64::MAX,
            old(self).economic_compliance.compliance_violations < u64::MAX,
        ensures
            final(self).wf(),
            final(self).config == old(self).config,
            final(self).model_registry == old(self).model_registry,
            !old(self).active_executions@.dom().contains(receipt.prompt_id.0@) ==> r == Err::<(), OperatorError>(
                OperatorError::PromptVerificationFailed,
            ) && *final(self) == *old(self),
            old(self).active_executions@.dom().contains(receipt.prompt_id.0@) && current_height >= old(self).active_executions@[receipt.prompt_id.0@].deadline_height ==> r == Err::<(), OperatorError>(
                OperatorError::DeadlineExpired,
            ) && *final(self) == *old(self),
            old(self).active_executions@.dom().contains(receipt.prompt_id.0@) && current_height < old(self).active_executions@[receipt.prompt_id.0@].deadline_height && !receipt_compliant(receipt) ==> r
                == Err::<(), OperatorError>(OperatorError::EconomicComplianceViolation)
                && final(self).economic_compliance == (EconomicCompliance {
                    compliance_violations: (old(self).economic_compliance.compliance_violations + 1) as u64,
                    ..old(self).economic_compliance
                }) && final(self).active_executions == old(self).active_executions
                && final(self).execution_history == old(self).execution_history,
            r is Ok <==> old(self).active_executions@.dom().contains(receipt.prompt_id.0@) && current_height
                < old(self).active_executions@[receipt.prompt_id.0@].deadline_height && receipt_compliant(receipt),
            r is Ok ==> final(self).economic_compliance == (EconomicCompliance {
                valid_receipts: (old(self).economic_compliance.valid_receipts + 1) as u64,
                ..old(self).economic_compliance
            }) && final(self).execution_history@ == old(self).execution_history@.push(
                PromptExecution {
                    status: ExecutionStatus::ReceiptSubmitted,
                    ..old(self).active_executions@[receipt.prompt_id.0@]
                },
            ) && final(self).active_executions@ == old(self).active_executions@.remove(receipt.prompt_id.0@),
    {
        let execution = match self.active_executions.get(&receipt.prompt_id) {
            Some(e) => *e,
            None => {
                return Err(OperatorError::PromptVerificationFailed);
            },
        };
        if current_height >= execution.deadline_height {
            return Err(OperatorError::DeadlineExpired);
        }
        self.economic_compliance.verify_receipt(&receipt)?;
        let submitted = PromptExecution { status: ExecutionStatus::ReceiptSubmitted, ..execution };
        self.execution_history.push(submitted);
        self.active_executions.remove(&receipt.prompt_id);
        Ok(())
    }

    /// The executions under way, in the order they were accepted.
    pub fn get_active_executions(&self) -> (r: Vec<&PromptExecution>)
        requires
            self.wf(),
        ensures
            r@.len() == self.active_executions.seq().len(),
            r@.len() == self.active_executions@.dom().len(),
            forall|i: int| 0 <= i < r@.len() ==> *r@[i] == self.active_executions.seq()[i].1,
    {
        let n = self.active_executions.len();
        let mut out: Vec<&PromptExecution> = Vec::new();
        let mut i: usize = 0;
        while i < n
            invariant
                n == self.active_executions.seq().len(),
                i <= n,
                out@.len() == i,
                forall|j: int| 0 <= j < i ==> *out@[j] == self.active_executions.seq()[j].1,
            decreases n - i,
        {
            out.push(self.active_executions.value_at(i));
            i = i + 1;
        }
        out
    }

    /// The executions whose receipt was submitted, oldest first.
    pub fn get_execution_history(&self) -> (r: &Vec<PromptExecution>)
        ensures
            *r == self.execution_history,
    {
        &self.execution_history
    }

    pub fn get_config(&self) -> (r: &OperatorConfig)
        ensures
            *r == self.config,
    {
        &self.config
    }
}

} // verus!
