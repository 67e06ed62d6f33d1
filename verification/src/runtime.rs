//! The inference runtime: accounts, governance, the model registry,
//! inference settlement, vaults and revenue routing.

use vstd::prelude::*;
use crate::runtime::accounts::AccountsModule;
use crate::runtime::governance::GovernanceModule;
use crate::runtime::inference::InferenceModule;
use crate::runtime::model_registry::ModelRegistryModule;
use crate::runtime::revenue::RevenueModule;
use crate::runtime::vault::VaultModule;

pub mod accounts;
pub mod governance;
pub mod inference;
pub mod model_registry;
pub mod revenue;
pub mod vault;

verus! {

/// A pluggable runtime module, implemented by users of the runtime.
pub trait Module {
    fn name(&self) -> &str;

    fn process(&mut self, tx_data: &[u8]) -> Result<(), RuntimeError>;
}

#[derive(Clone, Copy, Debug, PartialEq, Eq, Structural)]
pub enum RuntimeError {
    ModuleNotFound,
    InvalidModuleCall,
    InsufficientPermissions,
    StorageError,
    InvalidState,
}

/// The runtime's modules.
pub ghost struct RuntimeView {
    pub accounts: AccountsModule,
    pub governance: GovernanceModule,
    pub model_registry: ModelRegistryModule,
    pub inference: InferenceModule,
    pub vault: VaultModule,
    pub revenue: RevenueModule,
}

pub struct Runtime {
    accounts: AccountsModule,
    governance: GovernanceModule,
    model_registry: ModelRegistryModule,
    inference: InferenceModule,
    vault: VaultModule,
    revenue: RevenueModule,
}

impl View for Runtime {
    type V = RuntimeView;

    closed spec fn view(&self) -> RuntimeView {
        RuntimeView {
            accounts: self.accounts,
            governance: self.governance,
            model_registry: self.model_registry,
            inference: self.inference,
            vault: self.vault,
            revenue: self.revenue,
        }
    }
}

impl Runtime {
    /// Every module is well formed.
    pub open spec fn wf(&self) -> bool {
        &&& self@.accounts.wf()
        &&& self@.governance.wf()
        &&& self@.model_registry.wf()
        &&& self@.inference.wf()
        &&& self@.vault.wf()
        &&& self@.revenue.wf()
    }

    /// A runtime whose modules are all new.
    pub fn new() -> (r: Self)
        ensures
            r.wf(),
            r@.accounts@ == Map::<Seq<u8>, crate::primitives::account::AccountData>::empty(),
            r@.governance@.proposals.len() == 0 && r@.governance@.proposal_counter == 0,
            r@.governance@.parameters == crate::runtime::governance::default_parameters(),
            r@.model_registry@.models.len() == 0,
            r@.inference@.prompts.len() == 0 && r@.inference@.receipts.len() == 0,
            r@.vault@.vaults.len() == 0,
            r@.revenue@.distributions.len() == 0,
    {
        Runtime {
            accounts: AccountsModule::new(),
            governance: GovernanceModule::new(),
            model_registry: ModelRegistryModule::new(),
            inference: InferenceModule::new(),
            vault: VaultModule::new(),
            revenue: RevenueModule::new(),
        }
    }

    pub fn accounts(&self) -> (r: &AccountsModule)
        ensures
            *r == self@.accounts,
    {
        &self.accounts
    }

    pub fn accounts_mut(&mut self) -> (r: &mut AccountsModule)
        ensures
            *r == old(self)@.accounts,
            final(self)@ == (RuntimeView { accounts: *final(r), ..old(self)@ }),
    {
        &mut self.accounts
    }

    pub fn governance(&self) -> (r: &GovernanceModule)
        ensures
            *r == self@.governance,
    {
        &self.governance
    }

    pub fn governance_mut(&mut self) -> (r: &mut GovernanceModule)
        ensures
            *r == old(self)@.governance,
            final(self)@ == (RuntimeView { governance: *final(r), ..old(self)@ }),
    {
        &mut self.governance
    }

    pub fn model_registry(&self) -> (r: &ModelRegistryModule)
        ensures
            *r == self@.model_registry,
    {
        &self.model_registry
    }

    pub fn model_registry_mut(&mut self) -> (r: &mut ModelRegistryModule)
        ensures
            *r == old(self)@.model_registry,
            final(self)@ == (RuntimeView { model_registry: *final(r), ..old(self)@ }),
    {
        &mut self.model_registry
    }

    pub fn inference(&self) -> (r: &InferenceModule)
        ensures
            *r == self@.inference,
    {
        &self.inference
    }

    pub fn inference_mut(&mut self) -> (r: &mut InferenceModule)
        ensures
            *r == old(self)@.inference,
            final(self)@ == (RuntimeView { inference: *final(r), ..old(self)@ }),
    {
        &mut self.inference
    }

    pub fn vault(&self) -> (r: &VaultModule)
        ensures
            *r == self@.vault,
    {
        &self.vault
    }

    pub fn vault_mut(&mut self) -> (r: &mut VaultModule)
        ensures
            *r == old(self)@.vault,
            final(self)@ == (RuntimeView { vault: *final(r), ..old(self)@ }),
    {
        &mut self.vault
    }

    pub fn revenue(&self) -> (r: &RevenueModule)
        ensures
            *r == self@.revenue,
    {
        &self.revenue
    }

    pub fn revenue_mut(&mut self) -> (r: &mut RevenueModule)
        ensures
            *r == old(self)@.revenue,
            final(self)@ == (RuntimeView { revenue: *final(r), ..old(self)@ }),
    {
        &mut self.revenue
    }
}

impl Default for Runtime {
    fn default() -> (r: Self)
        ensures
            r.wf(),
            r@.accounts@ == Map::<Seq<u8>, crate::primitives::account::AccountData>::empty(),
            r@.model_registry@.models.len() == 0,
    {
        Runtime::new()
    }
}

} // verus!
