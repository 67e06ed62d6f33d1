//! The registry of models: their owners, versions, states, pricing and
//! revenue splits.

use vstd::prelude::*;
use crate::kernel::{Address, Hash32};
use crate::runtime::RuntimeError;
use crate::table::{Table, TableKey};

verus! {

pub const REVENUE_SPLIT_BASIS_POINTS: u32 = 10000;

#[derive(Clone, Copy, Debug, PartialEq, Eq, Structural)]
pub enum ModelState {
    Registered,
    Active,
    Paused,
    Deprecated,
    Disabled,
}

#[derive(Clone, Copy, Debug, PartialEq, Eq, Structural)]
pub struct PricingPolicy {
    pub mode: PricingMode,
    pub base_fee: u64,
    pub token_per_char: u64,
}

#[derive(Clone, Copy, Debug, PartialEq, Eq, Structural)]
pub enum PricingMode {
    Owner,
    Market,
    Hybrid,
}

/// How a model's revenue is shared, in basis points.
#[derive(Clone, Copy, Debug, PartialEq, Eq, Structural)]
pub struct RevenueSplit {
    pub model_owner_bps: u16,
    pub operator_bps: u16,
    pub shard_provider_bps: u16,
    pub validator_bps: u16,
    pub vault_bps: u16,
}

impl Default for RevenueSplit {
    fn default() -> (r: Self)
        ensures
            r == (RevenueSplit {
                model_owner_bps: 3000,
                operator_bps: 3000,
                shard_provider_bps: 2000,
                validator_bps: 1000,
                vault_bps: 1000,
            }),
    {
        RevenueSplit {
            model_owner_bps: 3000,
            operator_bps: 3000,
            shard_provider_bps: 2000,
            validator_bps: 1000,
            vault_bps: 1000,
        }
    }
}

/// The sum of a split's shares.
pub open spec fn split_total(s: RevenueSplit) -> int {
    s.model_owner_bps + s.operator_bps + s.shard_provider_bps + s.validator_bps + s.vault_bps
}

impl RevenueSplit {
    /// A split is valid when its shares add up to the whole (10 000).
    pub fn is_valid(&self) -> (r: bool)
        ensures
            r == (split_total(*self) == REVENUE_SPLIT_BASIS_POINTS),
    {
        let total: u32 = self.model_owner_bps as u32 + self.operator_bps as u32 + self.shard_provider_bps as u32
            + self.validator_bps as u32 + self.vault_bps as u32;
        total == REVENUE_SPLIT_BASIS_POINTS
    }
}

#[derive(Clone, Copy, Debug)]
pub struct Model {
    pub model_id: Hash32,
    pub owner: Address,
    pub version: u32,
    pub shard_root: Hash32,
    pub shard_count: u32,
    pub state: ModelState,
    pub pricing_policy: PricingPolicy,
    pub revenue_split: RevenueSplit,
    pub vault_enabled: bool,
}

/// What the registry holds: models by id, and the version history kept
/// per model.
pub ghost struct RegistryView {
    pub models: Map<Seq<u8>, Model>,
    pub model_versions: Map<Seq<u8>, Vec<Hash32>>,
}

pub struct ModelRegistryModule {
    models: Table<Hash32, Model>,
    model_versions: Table<Hash32, Vec<Hash32>>,
}

impl View for ModelRegistryModule {
    type V = RegistryView;

    closed spec fn view(&self) -> RegistryView {
        RegistryView { models: self.models@, model_versions: self.model_versions@ }
    }
}

impl ModelRegistryModule {
    pub closed spec fn wf(&self) -> bool {
        self.models.wf() && self.model_versions.wf()
    }

    /// The model table, as `all_models` hands it out.
    pub closed spec fn model_table(&self) -> Table<Hash32, Model> {
        self.models
    }

    pub fn new() -> (r: Self)
        ensures
            r.wf(),
            r@.models == Map::<Seq<u8>, Model>::empty(),
            r@.model_versions == Map::<Seq<u8>, Vec<Hash32>>::empty(),
    {
        ModelRegistryModule { models: Table::new(), model_versions: Table::new() }
    }

    /// Registers (or replaces) `model` under its id when its revenue split
    /// is valid.
    pub fn register_model(&mut self, model: Model) -> (r: Result<(), RuntimeError>)
        requires
            old(self).wf(),
        ensures
            final(self).wf(),
            r is Ok <==> split_total(model.revenue_split) == REVENUE_SPLIT_BASIS_POINTS,
            r is Err ==> r == Err::<(), RuntimeError>(RuntimeError::InvalidState) && *final(self) == *old(self),
            r is Ok ==> final(self)@ == (RegistryView {
                models: old(self)@.models.insert(model.model_id.0@, model),
                ..old(self)@
            }),
    {
        if !model.revenue_split.is_valid() {
            return Err(RuntimeError::InvalidState);
        }
        self.models.insert(model.model_id, model);
        Ok(())
    }

    pub fn get_model(&self, model_id: &Hash32) -> (r: Option<&Model>)
        requires
            self.wf(),
        ensures
            r is Some <==> self@.models.dom().contains(model_id.0@),
            r matches Some(m) ==> *m == self@.models[model_id.0@],
    {
        self.models.get(model_id)
    }

    pub fn get_model_mut(&mut self, model_id: &Hash32) -> (r: Option<&mut Model>)
        requires
            old(self).wf(),
        ensures
            final(self).wf(),
            r is Some <==> old(self)@.models.dom().contains(model_id.0@),
            r is None ==> *final(self) == *old(self),
            r matches Some(m) ==> *m == old(self)@.models[model_id.0@] && final(self)@ == (RegistryView {
                models: old(self)@.models.insert(model_id.0@, *final(m)),
                ..old(self)@
            }),
    {
        self.models.get_mut(model_id)
    }

    /// The model under `model_id`, to be changed in place; `InvalidState`
    /// when there is none.
    fn entry_mut(&mut self, model_id: &Hash32) -> (r: Result<&mut Model, RuntimeError>)
        requires
            old(self).wf(),
        ensures
            final(self).wf(),
            r is Ok <==> old(self)@.models.dom().contains(model_id.0@),
            r is Err ==> r == Err::<&mut Model, RuntimeError>(RuntimeError::InvalidState) && *final(self) == *old(self),
            r matches Ok(m) ==> *m == old(self)@.models[model_id.0@] && final(self)@ == (RegistryView {
                models: old(self)@.models.insert(model_id.0@, *final(m)),
                ..old(self)@
            }),
    {
        match self.models.get_mut(model_id) {
            Some(m) => Ok(m),
            None => Err(RuntimeError::InvalidState),
        }
    }

    /// Sets a model's version and shard root.
    pub fn update_version(&mut self, model_id: &Hash32, new_version: u32, new_shard_root: Hash32) -> (r: Result<
        (),
        RuntimeError,
    >)
        requires
            old(self).wf(),
        ensures
            final(self).wf(),
            r is Ok <==> old(self)@.models.dom().contains(model_id.0@),
            r is Err ==> r == Err::<(), RuntimeError>(RuntimeError::InvalidState) && *final(self) == *old(self),
            r is Ok ==> final(self)@ == (RegistryView {
                models: old(self)@.models.insert(
                    model_id.0@,
                    Model { version: new_version, shard_root: new_shard_root, ..old(self)@.models[model_id.0@] },
                ),
                ..old(self)@
            }),
    {
        let m = self.entry_mut(model_id)?;
        m.version = new_version;
        m.shard_root = new_shard_root;
        Ok(())
    }

    pub fn set_model_state(&mut self, model_id: &Hash32, state: ModelState) -> (r: Result<(), RuntimeError>)
        requires
            old(self).wf(),
        ensures
            final(self).wf(),
            r is Ok <==> old(self)@.models.dom().contains(model_id.0@),
            r is Err ==> r == Err::<(), RuntimeError>(RuntimeError::InvalidState) && *final(self) == *old(self),
            r is Ok ==> final(self)@ == (RegistryView {
                models: old(self)@.models.insert(model_id.0@, Model { state, ..old(self)@.models[model_id.0@] }),
                ..old(self)@
            }),
    {
        let m = self.entry_mut(model_id)?;
        m.state = state;
        Ok(())
    }

    pub fn update_pricing(&mut self, model_id: &Hash32, policy: PricingPolicy) -> (r: Result<(), RuntimeError>)
        requires
            old(self).wf(),
        ensures
            final(self).wf(),
            r is Ok <==> old(self)@.models.dom().contains(model_id.0@),
            r is Err ==> r == Err::<(), RuntimeError>(RuntimeError::InvalidState) && *final(self) == *old(self),
            r is Ok ==> final(self)@ == (RegistryView {
                models: old(self)@.models.insert(
                    model_id.0@,
                    Model { pricing_policy: policy, ..old(self)@.models[model_id.0@] },
                ),
                ..old(self)@
            }),
    {
        let m = self.entry_mut(model_id)?;
        m.pricing_policy = policy;
        Ok(())
    }

    /// Sets a model's revenue split; an invalid split is refused first.
    pub fn update_revenue_split(&mut self, model_id: &Hash32, split: RevenueSplit) -> (r: Result<(), RuntimeError>)
        requires
            old(self).wf(),
        ensures
            final(self).wf(),
            r is Ok <==> split_total(split) == REVENUE_SPLIT_BASIS_POINTS && old(self)@.models.dom().contains(
                model_id.0@,
            ),
            r is Err ==> r == Err::<(), RuntimeError>(RuntimeError::InvalidState) && *final(self) == *old(self),
            r is Ok ==> final(self)@ == (RegistryView {
                models: old(self)@.models.insert(
                    model_id.0@,
                    Model { revenue_split: split, ..old(self)@.models[model_id.0@] },
                ),
                ..old(self)@
            }),
    {
        if !split.is_valid() {
            return Err(RuntimeError::InvalidState);
        }
        let m = self.entry_mut(model_id)?;
        m.revenue_split = split;
        Ok(())
    }

    pub fn transfer_ownership(&mut self, model_id: &Hash32, new_owner: Address) -> (r: Result<(), RuntimeError>)
        requires
            old(self).wf(),
        ensures
            final(self).wf(),
            r is Ok <==> old(self)@.models.dom().contains(model_id.0@),
            r is Err ==> r == Err::<(), RuntimeError>(RuntimeError::InvalidState) && *final(self) == *old(self),
            r is Ok ==> final(self)@ == (RegistryView {
                models: old(self)@.models.insert(model_id.0@, Model { owner: new_owner, ..old(self)@.models[model_id.0@] }),
                ..old(self)@
            }),
    {
        let m = self.entry_mut(model_id)?;
        m.owner = new_owner;
        Ok(())
    }

    pub fn all_models(&self) -> (r: &Table<Hash32, Model>)
        requires
            self.wf(),
        ensures
            r.wf(),
            r@ == self@.models,
            *r == self.model_table(),
    {
        &self.models
    }

    /// Whether the model is registered and active.
    pub fn is_active(&self, model_id: &Hash32) -> (r: bool)
        requires
            self.wf(),
        ensures
            r == (self@.models.dom().contains(model_id.0@) && self@.models[model_id.0@].state == ModelState::Active),
    {
        match self.models.get(model_id) {
            Some(m) => m.state == ModelState::Active,
            None => false,
        }
    }
}

impl Default for ModelRegistryModule {
    fn default() -> (r: Self)
        ensures
            r.wf(),
            r@.models == Map::<Seq<u8>, Model>::empty(),
            r@.model_versions == Map::<Seq<u8>, Vec<Hash32>>::empty(),
    {
        ModelRegistryModule::new()
    }
}

} // verus!
