//! Blueprints of chains: the genesis configuration, runtime version, chain
//! properties, network configuration, manifest and host functions.

use vstd::prelude::*;
use crate::primitives::consensus::{AuthoritySet, ConsensusParams, ValidatorSet};
use crate::primitives::economics::{FeeParameters, GasSchedule, TokenSupply};
use crate::primitives::governance::GovernanceParameters;
use crate::primitives::inference::Model;

verus! {

#[derive(Clone, Debug)]
pub struct GenesisConfig {
    pub chain_id: u32,
    pub chain_name: String,
    pub initial_runtime_version: RuntimeVersion,
    pub initial_validators: ValidatorSet,
    pub genesis_balances: Vec<(String, u128)>,
    pub initial_models: Vec<Model>,
    pub governance_parameters: GovernanceParameters,
    pub consensus_parameters: ConsensusParams,
    pub fee_parameters: FeeParameters,
    pub gas_schedule: GasSchedule,
    pub token_supply: TokenSupply,
    pub initial_authority_set: AuthoritySet,
}

/// The sum of the genesis balances.
pub open spec fn balance_sum(s: Seq<(String, u128)>) -> int
    decreases s.len(),
{
    if s.len() == 0 {
        0
    } else {
        balance_sum(s.drop_last()) + s.last().1
    }
}

proof fn lemma_balance_sum_prefix(s: Seq<(String, u128)>, i: int)
    requires
        0 <= i <= s.len(),
    ensures
        0 <= balance_sum(s.take(i)) <= balance_sum(s),
    decreases s.len() - i,
{
    if i < s.len() {
        lemma_balance_sum_prefix(s, i + 1);
        assert(s.take(i + 1).drop_last() =~= s.take(i));
    } else {
        assert(s.take(i) =~= s);
    }
    lemma_balance_sum_nonneg(s.take(i));
}

proof fn lemma_balance_sum_nonneg(s: Seq<(String, u128)>)
    ensures
        balance_sum(s) >= 0,
    decreases s.len(),
{
    if s.len() > 0 {
        lemma_balance_sum_nonneg(s.drop_last());
    }
}

impl GenesisConfig {
    /// A configuration for chain 0 named `chain_name`, with default
    /// parameters, the whole token supply, and no validators, balances or
    /// models.
    pub fn new(chain_name: String) -> (r: Self)
        ensures
            r.chain_id == 0 && r.chain_name == chain_name,
            r.initial_validators.validators@.len() == 0 && r.initial_validators.total_stake == 0,
            r.genesis_balances@.len() == 0 && r.initial_models@.len() == 0,
            r.token_supply.total == crate::primitives::economics::TOTAL_SUPPLY && r.token_supply.circulating
                == crate::primitives::economics::TOTAL_SUPPLY && r.token_supply.burned == 0,
            r.initial_authority_set.authorities@.len() == 0 && r.initial_authority_set.set_id == 0,
    {
        GenesisConfig {
            chain_id: 0,
            chain_name,
            initial_runtime_version: RuntimeVersion::default(),
            initial_validators: ValidatorSet::new(),
            genesis_balances: Vec::new(),
            initial_models: Vec::new(),
            governance_parameters: GovernanceParameters::default(),
            consensus_parameters: ConsensusParams::default(),
            fee_parameters: FeeParameters::default(),
            gas_schedule: GasSchedule::default(),
            token_supply: TokenSupply::new(),
            initial_authority_set: AuthoritySet::new(Vec::new()),
        }
    }

    pub fn add_balance(&mut self, address: String, balance: u128)
        ensures
            final(self).genesis_balances@ == old(self).genesis_balances@.push((address, balance)),
            final(self).chain_id == old(self).chain_id && final(self).chain_name == old(self).chain_name,
            final(self).token_supply == old(self).token_supply,
    {
        self.genesis_balances.push((address, balance));
    }

    /// The sum of the genesis balances.
    pub fn total_balance(&self) -> (r: u128)
        requires
            balance_sum(self.genesis_balances@) <= u128::MAX,
        ensures
            r == balance_sum(self.genesis_balances@),
    {
        let mut total: u128 = 0;
        let mut i: usize = 0;
        while i < self.genesis_balances.len()
            invariant
                i <= self.genesis_balances@.len(),
                balance_sum(self.genesis_balances@) <= u128::MAX,
                total == balance_sum(self.genesis_balances@.take(i as int)),
            decreases self.genesis_balances@.len() - i,
        {
            proof {
                assert(self.genesis_balances@.take(i + 1).drop_last() =~= self.genesis_balances@.take(i as int));
                lemma_balance_sum_prefix(self.genesis_balances@, i + 1);
            }
            total = total + self.genesis_balances[i].1;
            i = i + 1;
        }
        assert(self.genesis_balances@.take(i as int) =~= self.genesis_balances@);
        total
    }
}

#[derive(Clone, Debug)]
pub struct RuntimeVersion {
    pub spec_name: String,
    pub impl_name: String,
    pub spec_version: u32,
    pub impl_version: u32,
    pub apis: Vec<([u8; 8], u32)>,
}

impl Default for RuntimeVersion {
    fn default() -> (r: Self)
        ensures
            r.spec_name@ == "tetcore"@ && r.impl_name@ == "tetcore"@,
            r.spec_version == 1 && r.impl_version == 1 && r.apis@.len() == 0,
    {
        proof {
            reveal_strlit("tetcore");
        }
        RuntimeVersion {
            spec_name: "tetcore".to_string(),
            impl_name: "tetcore".to_string(),
            spec_version: 1,
            impl_version: 1,
            apis: Vec::new(),
        }
    }
}

#[derive(Clone, Debug)]
pub struct ChainProperties {
    pub ss58_format: u8,
    pub token_symbol: String,
    pub token_decimals: u8,
    pub chain_type: ChainType,
}

impl Default for ChainProperties {
    fn default() -> (r: Self)
        ensures
            r.ss58_format == 42 && r.token_symbol@ == "TNT"@ && r.token_decimals == 18,
            r.chain_type == ChainType::Development,
    {
        proof {
            reveal_strlit("TNT");
        }
        ChainProperties {
            ss58_format: 42,
            token_symbol: "TNT".to_string(),
            token_decimals: 18,
            chain_type: ChainType::Development,
        }
    }
}

#[derive(Clone, Copy, Debug, PartialEq, Eq, Structural)]
pub enum ChainType {
    Development,
    Local,
    Live,
    Testnet,
}

#[derive(Clone, Debug)]
pub struct NetworkConfig {
    pub listen_addresses: Vec<String>,
    pub public_addresses: Vec<String>,
    pub max_connections: u32,
    pub force_announce: bool,
}

impl Default for NetworkConfig {
    fn default() -> (r: Self)
        ensures
            r.listen_addresses@.len() == 1 && r.listen_addresses@[0]@ == "/ip4/0.0.0.0/tcp/30333"@,
            r.public_addresses@.len() == 0 && r.max_connections == 100 && !r.force_announce,
    {
        proof {
            reveal_strlit("/ip4/0.0.0.0/tcp/30333");
        }
        NetworkConfig {
            listen_addresses: vec!["/ip4/0.0.0.0/tcp/30333".to_string()],
            public_addresses: Vec::new(),
            max_connections: 100,
            force_announce: false,
        }
    }
}

#[derive(Clone, Debug)]
pub struct BlueprintManifest {
    pub name: String,
    pub version: String,
    pub description: String,
    pub modules: Vec<String>,
    pub parameters: Vec<BlueprintParameter>,
    pub genesis_config: GenesisConfig,
    pub runtime_version: RuntimeVersion,
    pub chain_properties: ChainProperties,
}

impl BlueprintManifest {
    pub fn new(name: String, version: String) -> (r: Self)
        ensures
            r.name == name && r.version == version && r.description@.len() == 0,
            r.modules@.len() == 0 && r.parameters@.len() == 0,
            r.genesis_config.chain_id == 0 && r.genesis_config.chain_name@.len() == 0,
            r.runtime_version.spec_name@ == "tetcore"@ && r.runtime_version.spec_version == 1,
            r.chain_properties.ss58_format == 42 && r.chain_properties.token_decimals == 18,
    {
        BlueprintManifest {
            name,
            version,
            description: String::new(),
            modules: Vec::new(),
            parameters: Vec::new(),
            genesis_config: GenesisConfig::new(String::new()),
            runtime_version: RuntimeVersion::default(),
            chain_properties: ChainProperties::default(),
        }
    }
}

#[derive(Clone, Debug)]
pub struct BlueprintParameter {
    pub name: String,
    pub value_type: String,
    pub default_value: Option<String>,
    pub description: String,
}

#[derive(Clone, Debug)]
pub struct HostFunctions {
    pub storage: Vec<HostFunction>,
    pub crypto: Vec<HostFunction>,
    pub inference: Vec<HostFunction>,
    pub misc: Vec<HostFunction>,
}

impl Default for HostFunctions {
    fn default() -> (r: Self)
        ensures
            r.storage@.len() == 0 && r.crypto@.len() == 0 && r.inference@.len() == 0 && r.misc@.len() == 0,
    {
        HostFunctions { storage: Vec::new(), crypto: Vec::new(), inference: Vec::new(), misc: Vec::new() }
    }
}

#[derive(Clone, Debug)]
pub struct HostFunction {
    pub name: String,
    pub signature: String,
    pub description: String,
}

} // verus!
