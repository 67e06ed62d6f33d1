//! The blueprint framework for composing runtimes out of modules: module
//! identities and state, genesis configuration, runtime parameters and
//! network identity.

use vstd::prelude::*;
use crate::bytes::{push_all, push_le, le_bytes, bytes_lt, seq_lt};
use crate::digest::{sha256, sha256_spec, merkle_fold, merkle_root, arr_views, sort_hashes, sorted_le};
use crate::kernel::{Address, Hash32, storage_leaf};
use crate::table::{Table, TableKey, OrderedKey, sorted_order, views, bytes_map, copy_bytes_table};
use vstd::std_specs::convert::IntoSpec;
use vstd::string::StringSliceAdditionalSpecFns;

verus! {

pub const MAX_MODULES: usize = 64;

pub const MAX_GENESIS_ACCOUNTS: usize = 1000;

/// A module's four-byte identifier.
#[derive(Clone, Copy, Debug, Hash)]
pub struct ModuleId(pub [u8; 4]);

impl PartialEq for ModuleId {
    fn eq(&self, other: &Self) -> (r: bool) {
        let r = self.0[0] == other.0[0] && self.0[1] == other.0[1] && self.0[2] == other.0[2] && self.0[3]
            == other.0[3];
        proof {
            if r {
                assert(self.0@ =~= other.0@);
            }
        }
        r
    }
}

impl Eq for ModuleId {}

impl vstd::std_specs::cmp::PartialEqSpecImpl for ModuleId {
    open spec fn obeys_eq_spec() -> bool {
        true
    }

    open spec fn eq_spec(&self, other: &ModuleId) -> bool {
        self.0@ == other.0@
    }
}

impl TableKey for ModuleId {
    type KV = Seq<u8>;

    open spec fn kview(&self) -> Seq<u8> {
        self.0@
    }

    fn key_eq(&self, other: &Self) -> (r: bool) {
        let r = self.0[0] == other.0[0] && self.0[1] == other.0[1] && self.0[2] == other.0[2] && self.0[3]
            == other.0[3];
        proof {
            if r {
                assert(self.0@ =~= other.0@);
            }
        }
        r
    }
}

impl ModuleId {
    /// The first four bytes of the SHA-256 digest of the name's UTF-8 bytes.
    pub fn from_name(name: &str) -> (r: Self)
        ensures
            r.0@ == sha256_spec(name.spec_bytes()).subrange(0, 4),
    {
        let hash = sha256(name.as_bytes());
        let r = ModuleId([hash[0], hash[1], hash[2], hash[3]]);
        assert(r.0@ =~= hash@.subrange(0, 4));
        r
    }
}

/// A module of a runtime, implemented by the runtime's author. Each
/// implementation names, by the spec functions here, the identifier it
/// reports and what its initialization, transactions and end-of-block step
/// may do; nothing more is assumed of it.
pub trait TetcoreModule {
    /// The identifier the module reports.
    spec fn reported_id(&self) -> ModuleId;

    /// Whether ending a block may take the state `before` to `after` with
    /// the outcome `outcome`.
    spec fn block_end_allows(&self, before: ModuleState, after: ModuleState, outcome: Result<(), ModuleError>) -> bool;

    /// Whether applying `tx` may take the state `before` to `after` with
    /// the outcome `outcome`.
    spec fn apply_allows(
        &self,
        tx: ModuleTransaction,
        before: ModuleState,
        after: ModuleState,
        outcome: Result<ModuleResult, ModuleError>,
    ) -> bool;

    /// Whether initializing may take the genesis state `before` to `after`
    /// with the outcome `outcome`.
    spec fn initialize_allows(
        &self,
        before: GenesisState,
        after: GenesisState,
        outcome: Result<(), ModuleError>,
    ) -> bool;

    fn module_id(&self) -> (r: ModuleId)
        ensures
            r == self.reported_id(),
    ;

    fn name(&self) -> &str;

    fn version(&self) -> (u32, u32, u32);

    fn initialize(&self, genesis: &mut GenesisState) -> (r: Result<(), ModuleError>)
        ensures
            self.initialize_allows(*old(genesis), *final(genesis), r),
    ;

    fn apply(&self, tx: &ModuleTransaction, state: &mut ModuleState) -> (r: Result<ModuleResult, ModuleError>)
        ensures
            self.apply_allows(*tx, *old(state), *final(state), r),
    ;

    fn on_block_end(&self, state: &mut ModuleState) -> (r: Result<(), ModuleError>)
        ensures
            self.block_end_allows(*old(state), *final(state), r),
    ;

    fn get_storage(&self, state: &ModuleState, key: &[u8]) -> Option<Vec<u8>>;

    fn set_storage(&self, state: &mut ModuleState, key: Vec<u8>, value: Vec<u8>);
}

/// A transaction addressed to a module.
#[derive(Clone, Debug)]
pub struct ModuleTransaction {
    pub module_id: ModuleId,
    pub payload: Vec<u8>,
}

/// An event emitted by a module.
#[derive(Clone, Debug)]
pub struct ModuleEvent {
    pub module_id: ModuleId,
    pub event_type: u32,
    pub data: Vec<u8>,
}

/// What applying a module transaction produced.
#[derive(Clone, Debug)]
pub struct ModuleResult {
    pub success: bool,
    pub output: Vec<u8>,
    pub events: Vec<ModuleEvent>,
    pub state_changes: Table<Vec<u8>, Option<Vec<u8>>>,
}

/// Why a module refused a transaction.
#[derive(Clone, Copy, Debug, PartialEq, Eq, Structural)]
pub enum ModuleError {
    InvalidTransaction,
    StorageError,
    InsufficientBalance,
    NotFound,
    AlreadyExists,
    InvalidState,
    ModuleNotFound,
}

/// Why a genesis configuration was refused.
#[derive(Clone, Copy, Debug, PartialEq, Eq, Structural)]
pub enum GenesisError {
    InvalidConfig,
    TooManyAccounts,
    InvalidAccount,
    DuplicateAccount,
}

/// Why a blueprint or runtime refused a module.
#[derive(Clone, Copy, Debug, PartialEq, Eq, Structural)]
pub enum BlueprintError {
    ModuleNotFound,
    DuplicateModule,
    TooManyModules,
    InvalidGenesis,
    InvalidConfiguration,
}

/// A module's key-value storage.
#[derive(Clone, Debug)]
pub struct ModuleState {
    pub storage: Table<Vec<u8>, Vec<u8>>,
}

/// The Merkle root of a module's storage: the digests of key and value, in
/// increasing key order.
pub open spec fn module_root_spec(m: Map<Seq<u8>, Vec<u8>>) -> Seq<u8> {
    merkle_fold(sorted_order(m.dom()).map_values(|k: Seq<u8>| storage_leaf(k, m[k]@)))
}

impl ModuleState {
    pub fn new() -> (r: Self)
        ensures
            r.storage.wf(),
            r.storage@ == Map::<Seq<u8>, Vec<u8>>::empty(),
    {
        ModuleState { storage: Table::new() }
    }

    pub fn get(&self, key: &Vec<u8>) -> (r: Option<&Vec<u8>>)
        requires
            self.storage.wf(),
        ensures
            r is Some <==> self.storage@.dom().contains(key@),
            r matches Some(v) ==> *v == self.storage@[key@],
    {
        self.storage.get(key)
    }

    pub fn set(&mut self, key: Vec<u8>, value: Vec<u8>)
        requires
            old(self).storage.wf(),
        ensures
            final(self).storage.wf(),
            final(self).storage@ == old(self).storage@.insert(key@, value),
    {
        self.storage.insert(key, value);
    }

    pub fn remove(&mut self, key: &Vec<u8>)
        requires
            old(self).storage.wf(),
        ensures
            final(self).storage.wf(),
            final(self).storage@ == old(self).storage@.remove(key@),
    {
        self.storage.remove(key);
    }

    /// The Merkle root of the storage (see `module_root_spec`).
    pub fn root(&self) -> (r: Hash32)
        requires
            self.storage.wf(),
        ensures
            r.0@ == module_root_spec(self.storage@),
    {
        let keys = self.storage.sorted_keys();
        let ghost order = sorted_order(self.storage@.dom());
        let ghost m = self.storage@;
        let ghost target = order.map_values(|k: Seq<u8>| storage_leaf(k, m[k]@));
        let mut leaves: Vec<[u8; 32]> = Vec::new();
        let mut i: usize = 0;
        while i < keys.len()
            invariant
                self.storage.wf(),
                m == self.storage@,
                views(keys@) == order,
                order.to_set() == m.dom(),
                target == order.map_values(|k: Seq<u8>| storage_leaf(k, m[k]@)),
                i <= keys@.len(),
                leaves@.len() == i,
                target.len() == keys@.len(),
                arr_views(leaves@) == target.subrange(0, i as int),
            decreases keys@.len() - i,
        {
            assert(views(keys@)[i as int] == keys@[i as int]@);
            assert(m.dom().contains(keys@[i as int]@)) by {
                assert(order.to_set().contains(order[i as int]));
            }
            let v = self.storage.get(&keys[i]).unwrap();
            let mut data: Vec<u8> = Vec::new();
            push_all(&mut data, keys[i].as_slice());
            push_all(&mut data, v.as_slice());
            let h = sha256(data.as_slice());
            let ghost old_leaves = leaves@;
            leaves.push(h);
            proof {
                assert(data@ =~= keys@[i as int]@ + m[keys@[i as int]@]@);
                assert(arr_views(leaves@) =~= arr_views(old_leaves).push(h@));
                assert(target.subrange(0, i + 1) =~= target.subrange(0, i as int).push(target[i as int]));
            }
            i = i + 1;
        }
        proof {
            assert(target.subrange(0, i as int) =~= target);
        }
        Hash32(merkle_root(leaves))
    }
}

impl Default for ModuleState {
    fn default() -> (r: Self)
        ensures
            r.storage.wf(),
            r.storage@ == Map::<Seq<u8>, Vec<u8>>::empty(),
    {
        ModuleState::new()
    }
}

/// A runtime parameter value.
#[derive(Clone, Debug)]
pub enum RuntimeValue {
    U64(u64),
    U128(u128),
    Bool(bool),
    String(String),
    Bytes(Vec<u8>),
}

/// A runtime parameter value with its string and bytes taken by their views.
pub enum RuntimeValueView {
    U64(u64),
    U128(u128),
    Bool(bool),
    String(Seq<char>),
    Bytes(Seq<u8>),
}

impl View for RuntimeValue {
    type V = RuntimeValueView;

    open spec fn view(&self) -> RuntimeValueView {
        match self {
            RuntimeValue::U64(v) => RuntimeValueView::U64(*v),
            RuntimeValue::U128(v) => RuntimeValueView::U128(*v),
            RuntimeValue::Bool(v) => RuntimeValueView::Bool(*v),
            RuntimeValue::String(s) => RuntimeValueView::String(s@),
            RuntimeValue::Bytes(b) => RuntimeValueView::Bytes(b@),
        }
    }
}

impl RuntimeValue {
    pub fn as_u64(&self) -> (r: Option<u64>)
        ensures
            r == (match *self {
                RuntimeValue::U64(v) => Some(v),
                _ => None,
            }),
    {
        match self {
            RuntimeValue::U64(v) => Some(*v),
            _ => None,
        }
    }

    pub fn as_u128(&self) -> (r: Option<u128>)
        ensures
            r == (match *self {
                RuntimeValue::U128(v) => Some(v),
                _ => None,
            }),
    {
        match self {
            RuntimeValue::U128(v) => Some(*v),
            _ => None,
        }
    }

    pub fn as_bool(&self) -> (r: Option<bool>)
        ensures
            r == (match *self {
                RuntimeValue::Bool(v) => Some(v),
                _ => None,
            }),
    {
        match self {
            RuntimeValue::Bool(v) => Some(*v),
            _ => None,
        }
    }

    fn duplicate(&self) -> (r: Self)
        ensures
            r@ == self@,
    {
        match self {
            RuntimeValue::U64(v) => RuntimeValue::U64(*v),
            RuntimeValue::U128(v) => RuntimeValue::U128(*v),
            RuntimeValue::Bool(v) => RuntimeValue::Bool(*v),
            RuntimeValue::String(s) => RuntimeValue::String(s.clone()),
            RuntimeValue::Bytes(b) => RuntimeValue::Bytes(b.clone()),
        }
    }
}

impl From<u64> for RuntimeValue {
    fn from(v: u64) -> (r: Self) {
        RuntimeValue::U64(v)
    }
}

impl vstd::std_specs::convert::FromSpecImpl<u64> for RuntimeValue {
    open spec fn obeys_from_spec() -> bool {
        true
    }

    open spec fn from_spec(v: u64) -> Self {
        RuntimeValue::U64(v)
    }
}

impl From<u128> for RuntimeValue {
    fn from(v: u128) -> (r: Self) {
        RuntimeValue::U128(v)
    }
}

impl vstd::std_specs::convert::FromSpecImpl<u128> for RuntimeValue {
    open spec fn obeys_from_spec() -> bool {
        true
    }

    open spec fn from_spec(v: u128) -> Self {
        RuntimeValue::U128(v)
    }
}

impl From<bool> for RuntimeValue {
    fn from(v: bool) -> (r: Self) {
        RuntimeValue::Bool(v)
    }
}

impl vstd::std_specs::convert::FromSpecImpl<bool> for RuntimeValue {
    open spec fn obeys_from_spec() -> bool {
        true
    }

    open spec fn from_spec(v: bool) -> Self {
        RuntimeValue::Bool(v)
    }
}

impl From<String> for RuntimeValue {
    fn from(v: String) -> (r: Self) {
        RuntimeValue::String(v)
    }
}

impl vstd::std_specs::convert::FromSpecImpl<String> for RuntimeValue {
    open spec fn obeys_from_spec() -> bool {
        true
    }

    open spec fn from_spec(v: String) -> Self {
        RuntimeValue::String(v)
    }
}

impl From<Vec<u8>> for RuntimeValue {
    fn from(v: Vec<u8>) -> (r: Self) {
        RuntimeValue::Bytes(v)
    }
}

impl vstd::std_specs::convert::FromSpecImpl<Vec<u8>> for RuntimeValue {
    open spec fn obeys_from_spec() -> bool {
        true
    }

    open spec fn from_spec(v: Vec<u8>) -> Self {
        RuntimeValue::Bytes(v)
    }
}

/// Named runtime parameters.
#[derive(Clone, Debug)]
pub struct RuntimeParameters {
    values: Table<String, RuntimeValue>,
}

impl View for RuntimeParameters {
    type V = Map<Seq<char>, RuntimeValueView>;

    closed spec fn view(&self) -> Map<Seq<char>, RuntimeValueView> {
        self.values@.map_values(|v: RuntimeValue| v@)
    }
}

impl RuntimeParameters {
    pub closed spec fn wf(&self) -> bool {
        self.values.wf()
    }

    pub fn new() -> (r: Self)
        ensures
            r.wf(),
            r@ == Map::<Seq<char>, RuntimeValueView>::empty(),
    {
        let r = RuntimeParameters { values: Table::new() };
        assert(r@ =~= Map::<Seq<char>, RuntimeValueView>::empty());
        r
    }

    /// Sets `key` to the value that `value` converts to.
    pub fn set<T: Into<RuntimeValue>>(&mut self, key: &str, value: T)
        requires
            old(self).wf(),
        ensures
            final(self).wf(),
            T::obeys_into_spec() ==> final(self)@ == old(self)@.insert(key@, value.into_spec()@),
    {
        let v: RuntimeValue = value.into();
        self.insert_value(key.to_owned(), v);
    }

    fn insert_value(&mut self, key: String, v: RuntimeValue)
        requires
            old(self).wf(),
        ensures
            final(self).wf(),
            final(self)@ == old(self)@.insert(key@, v@),
    {
        self.values.insert(key, v);
        assert(self@ =~= old(self)@.insert(key@, v@));
    }

    pub fn get(&self, key: &str) -> (r: Option<&RuntimeValue>)
        requires
            self.wf(),
        ensures
            r is Some <==> self@.dom().contains(key@),
            r matches Some(v) ==> v@ == self@[key@],
    {
        let k: String = key.to_owned();
        self.values.get(&k)
    }

    /// The value of `key` when it is a `u64`, else `default`.
    pub fn get_u64(&self, key: &str, default: u64) -> (r: u64)
        requires
            self.wf(),
        ensures
            r == (if self@.dom().contains(key@) && self@[key@] is U64 {
                self@[key@]->U64_0
            } else {
                default
            }),
    {
        match self.get(key) {
            Some(v) => match v.as_u64() {
                Some(x) => x,
                None => default,
            },
            None => default,
        }
    }

    /// The value of `key` when it is a `u128`, else `default`.
    pub fn get_u128(&self, key: &str, default: u128) -> (r: u128)
        requires
            self.wf(),
        ensures
            r == (if self@.dom().contains(key@) && self@[key@] is U128 {
                self@[key@]->U128_0
            } else {
                default
            }),
    {
        match self.get(key) {
            Some(v) => match v.as_u128() {
                Some(x) => x,
                None => default,
            },
            None => default,
        }
    }

    /// The value of `key` when it is a `bool`, else `default`.
    pub fn get_bool(&self, key: &str, default: bool) -> (r: bool)
        requires
            self.wf(),
        ensures
            r == (if self@.dom().contains(key@) && self@[key@] is Bool {
                self@[key@]->Bool_0
            } else {
                default
            }),
    {
        match self.get(key) {
            Some(v) => match v.as_bool() {
                Some(x) => x,
                None => default,
            },
            None => default,
        }
    }

    fn duplicate(&self) -> (r: Self)
        requires
            self.wf(),
        ensures
            r.wf(),
            r@ == self@,
    {
        let mut out = RuntimeParameters::new();
        let n = self.values.len();
        let mut i: usize = 0;
        let ghost src = self.values.seq();
        proof {
            self.values.lemma_view();
        }
        while i < n
            invariant
                self.wf(),
                out.wf(),
                src == self.values.seq(),
                n == src.len(),
                i <= n,
                crate::table::distinct_keys(src),
                forall|j: int| 0 <= j < n ==> self.values@.dom().contains((#[trigger] src[j]).0@) && self.values@[src[j].0@]
                    == src[j].1,
                forall|k: Seq<char>| #[trigger] self.values@.dom().contains(k) ==> exists|j: int| 0 <= j < n && src[j].0@ == k,
                out@.dom() == Set::new(|k: Seq<char>| exists|j: int| 0 <= j < i && src[j].0@ == k),
                forall|j: int| 0 <= j < i ==> #[trigger] out@[src[j].0@] == src[j].1@,
            decreases n - i,
        {
            let k = self.values.key_at(i).clone();
            let v = self.values.value_at(i).duplicate();
            let ghost before = out@;
            out.insert_value(k, v);
            proof {
                assert forall|j: int| 0 <= j < i + 1 implies #[trigger] out@[src[j].0@] == src[j].1@ by {
                    if j < i {
                        assert(src[j].0@ != src[i as int].0@);
                    }
                }
                assert(out@.dom() =~= Set::new(|k: Seq<char>| exists|j: int| 0 <= j < i + 1 && src[j].0@ == k)) by {
                    assert forall|k: Seq<char>| out@.dom().contains(k) implies exists|j: int| 0 <= j < i + 1 && src[j].0@ == k by {
                        if k != src[i as int].0@ {
                            assert(before.dom().contains(k));
                        }
                    }
                }
            }
            i = i + 1;
        }
        proof {
            assert forall|k: Seq<char>| #[trigger] self@.dom().contains(k) implies out@.dom().contains(k) && out@[k] == self@[k] by {
                let j = choose|j: int| 0 <= j < n && src[j].0@ == k;
                assert(out@.dom().contains(src[j].0@));
            }
            assert(out@ =~= self@);
        }
        out
    }
}

impl Default for RuntimeParameters {
    fn default() -> (r: Self)
        ensures
            r.wf(),
            r@ == Map::<Seq<char>, RuntimeValueView>::empty(),
    {
        RuntimeParameters::new()
    }
}

/// Builds runtime parameters one at a time.
#[derive(Clone, Debug)]
pub struct RuntimeParametersBuilder {
    params: RuntimeParameters,
}

impl View for RuntimeParametersBuilder {
    type V = Map<Seq<char>, RuntimeValueView>;

    closed spec fn view(&self) -> Map<Seq<char>, RuntimeValueView> {
        self.params@
    }
}

impl RuntimeParametersBuilder {
    pub closed spec fn wf(&self) -> bool {
        self.params.wf()
    }

    pub fn new() -> (r: Self)
        ensures
            r.wf(),
            r@ == Map::<Seq<char>, RuntimeValueView>::empty(),
    {
        RuntimeParametersBuilder { params: RuntimeParameters::new() }
    }

    pub fn set<T: Into<RuntimeValue>>(self, key: &str, value: T) -> (r: Self)
        requires
            self.wf(),
        ensures
            r.wf(),
            T::obeys_into_spec() ==> r@ == self@.insert(key@, value.into_spec()@),
    {
        let mut b = self;
        b.params.set(key, value);
        b
    }

    pub fn build(self) -> (r: RuntimeParameters)
        requires
            self.wf(),
        ensures
            r.wf(),
            r@ == self@,
    {
        self.params
    }
}

impl Default for RuntimeParametersBuilder {
    fn default() -> (r: Self)
        ensures
            r.wf(),
            r@ == Map::<Seq<char>, RuntimeValueView>::empty(),
    {
        RuntimeParametersBuilder::new()
    }
}

/// An account of the genesis state.
#[derive(Clone, Debug)]
pub struct GenesisAccount {
    pub address: Address,
    pub balance: u128,
    pub code: Option<Vec<u8>>,
    pub storage: Table<Vec<u8>, Vec<u8>>,
}

/// A genesis account with its code and storage taken by their views.
pub struct GenesisAccountView {
    pub address: Address,
    pub balance: u128,
    pub code: Option<Seq<u8>>,
    pub storage: Map<Seq<u8>, Seq<u8>>,
}

impl View for GenesisAccount {
    type V = GenesisAccountView;

    open spec fn view(&self) -> GenesisAccountView {
        GenesisAccountView {
            address: self.address,
            balance: self.balance,
            code: match self.code {
                Some(c) => Some(c@),
                None => None,
            },
            storage: bytes_map(self.storage@),
        }
    }
}

impl GenesisAccount {
    pub fn new(address: Address, balance: u128) -> (r: Self)
        ensures
            r.storage.wf(),
            r@ == (GenesisAccountView { address, balance, code: None, storage: Map::empty() }),
    {
        let r = GenesisAccount { address, balance, code: None, storage: Table::new() };
        assert(bytes_map(r.storage@) =~= Map::<Seq<u8>, Seq<u8>>::empty());
        r
    }

    pub fn with_code(self, code: Vec<u8>) -> (r: Self)
        ensures
            r.storage == self.storage,
            r@ == (GenesisAccountView { code: Some(code@), ..self@ }),
    {
        let mut a = self;
        a.code = Some(code);
        a
    }

    fn duplicate(&self) -> (r: Self)
        requires
            self.storage.wf(),
        ensures
            r.storage.wf(),
            r@ == self@,
    {
        let code = match &self.code {
            Some(c) => Some(c.clone()),
            None => None,
        };
        GenesisAccount { address: self.address, balance: self.balance, code, storage: copy_bytes_table(&self.storage) }
    }
}

/// The bytes a list of genesis accounts contributes: each address followed
/// by its balance in 16 little-endian bytes.
pub open spec fn accounts_bytes(s: Seq<GenesisAccount>) -> Seq<u8>
    decreases s.len(),
{
    if s.len() == 0 {
        Seq::empty()
    } else {
        accounts_bytes(s.drop_last()) + s.last().address.0@ + le_bytes(s.last().balance as nat, 16)
    }
}

/// The root of a genesis configuration: the digest of its name, its id, its
/// chain id and the digest of its accounts.
pub open spec fn genesis_config_root_spec(name: Seq<char>, id: Seq<char>, chain_id: u32, accounts: Seq<GenesisAccount>) -> Seq<u8> {
    sha256_spec(
        vstd::utf8::encode_utf8(name) + vstd::utf8::encode_utf8(id) + le_bytes(chain_id as nat, 4) + sha256_spec(
            accounts_bytes(accounts),
        ),
    )
}

/// The configuration of a chain's genesis.
#[derive(Clone, Debug)]
pub struct GenesisConfig {
    pub name: String,
    pub id: String,
    pub chain_id: u32,
    pub genesis_time: u64,
    pub initial_validators: Vec<Address>,
    pub accounts: Vec<GenesisAccount>,
    pub parameters: RuntimeParameters,
}

impl GenesisConfig {
    pub fn new(name: String, id: String, chain_id: u32) -> (r: Self)
        ensures
            r.name == name && r.id == id && r.chain_id == chain_id && r.genesis_time == 0,
            r.initial_validators@.len() == 0 && r.accounts@.len() == 0,
            r.parameters.wf() && r.parameters@ == Map::<Seq<char>, RuntimeValueView>::empty(),
    {
        GenesisConfig {
            name,
            id,
            chain_id,
            genesis_time: 0,
            initial_validators: Vec::new(),
            accounts: Vec::new(),
            parameters: RuntimeParameters::new(),
        }
    }

    pub fn with_validator(self, address: Address) -> (r: Self)
        ensures
            r.initial_validators@ == self.initial_validators@.push(address),
            r.name == self.name && r.id == self.id && r.chain_id == self.chain_id && r.genesis_time == self.genesis_time,
            r.accounts@ == self.accounts@ && r.parameters == self.parameters,
    {
        let mut c = self;
        c.initial_validators.push(address);
        c
    }

    pub fn with_account(self, account: GenesisAccount) -> (r: Self)
        ensures
            r.accounts@ == self.accounts@.push(account),
            r.name == self.name && r.id == self.id && r.chain_id == self.chain_id && r.genesis_time == self.genesis_time,
            r.initial_validators@ == self.initial_validators@ && r.parameters == self.parameters,
    {
        let mut c = self;
        c.accounts.push(account);
        c
    }

    pub fn with_parameter<T: Into<RuntimeValue>>(&mut self, key: &str, value: T)
        requires
            old(self).parameters.wf(),
        ensures
            final(self).parameters.wf(),
            T::obeys_into_spec() ==> final(self).parameters@ == old(self).parameters@.insert(key@, value.into_spec()@),
            final(self).name == old(self).name && final(self).id == old(self).id,
            final(self).chain_id == old(self).chain_id && final(self).genesis_time == old(self).genesis_time,
            final(self).initial_validators@ == old(self).initial_validators@,
            final(self).accounts@ == old(self).accounts@,
    {
        self.parameters.set(key, value);
    }

    /// Refuses a configuration with more than the maximum number of accounts.
    pub fn verify(&self) -> (r: Result<(), GenesisError>)
        ensures
            r is Err <==> self.accounts@.len() > MAX_GENESIS_ACCOUNTS,
            r matches Err(e) ==> e == GenesisError::TooManyAccounts,
    {
        if self.accounts.len() > MAX_GENESIS_ACCOUNTS {
            return Err(GenesisError::TooManyAccounts);
        }
        let mut total_balance: u128 = 0;
        let mut i: usize = 0;
        while i < self.accounts.len()
            invariant
                i <= self.accounts@.len(),
            decreases self.accounts@.len() - i,
        {
            total_balance = total_balance.saturating_add(self.accounts[i].balance);
            i = i + 1;
        }
        Ok(())
    }

    /// The root of the configuration (see `genesis_config_root_spec`).
    pub fn root(&self) -> (r: Hash32)
        ensures
            r.0@ == genesis_config_root_spec(self.name@, self.id@, self.chain_id, self.accounts@),
    {
        let mut data: Vec<u8> = Vec::new();
        push_all(&mut data, self.name.as_str().as_bytes());
        push_all(&mut data, self.id.as_str().as_bytes());
        push_le(&mut data, self.chain_id as u128, 4);
        let mut account_bytes: Vec<u8> = Vec::new();
        let mut i: usize = 0;
        while i < self.accounts.len()
            invariant
                i <= self.accounts@.len(),
                account_bytes@ == accounts_bytes(self.accounts@.take(i as int)),
            decreases self.accounts@.len() - i,
        {
            proof {
                assert(self.accounts@.take(i + 1).drop_last() =~= self.accounts@.take(i as int));
            }
            push_all(&mut account_bytes, self.accounts[i].address.0.as_slice());
            push_le(&mut account_bytes, self.accounts[i].balance, 16);
            i = i + 1;
        }
        assert(self.accounts@.take(i as int) =~= self.accounts@);
        let account_hash = sha256(account_bytes.as_slice());
        push_all(&mut data, account_hash.as_slice());
        Hash32(sha256(data.as_slice()))
    }
}

/// The bytes a list of validators contributes: their addresses in order.
pub open spec fn validators_bytes(s: Seq<Address>) -> Seq<u8>
    decreases s.len(),
{
    if s.len() == 0 {
        Seq::empty()
    } else {
        validators_bytes(s.drop_last()) + s.last().0@
    }
}

/// The bytes the accounts of a genesis state contribute, in increasing
/// address order: each address and its balance in 16 little-endian bytes.
pub open spec fn state_accounts_bytes(order: Seq<Seq<u8>>, m: Map<Seq<u8>, GenesisAccount>) -> Seq<u8>
    decreases order.len(),
{
    if order.len() == 0 {
        Seq::empty()
    } else {
        state_accounts_bytes(order.drop_last(), m) + order.last() + le_bytes(m[order.last()].balance as nat, 16)
    }
}

/// The root of a genesis state: the digest of its accounts and validators.
pub open spec fn genesis_state_root_spec(m: Map<Seq<u8>, GenesisAccount>, validators: Seq<Address>) -> Seq<u8> {
    sha256_spec(state_accounts_bytes(sorted_order(m.dom()), m) + validators_bytes(validators))
}

/// The state a chain starts from.
#[derive(Clone, Debug)]
pub struct GenesisState {
    pub accounts: Table<Address, GenesisAccount>,
    pub validators: Vec<Address>,
    pub parameters: RuntimeParameters,
    pub module_states: Table<ModuleId, ModuleState>,
}

impl GenesisState {
    pub open spec fn wf(&self) -> bool {
        self.accounts.wf() && self.parameters.wf() && self.module_states.wf()
    }

    pub fn new() -> (r: Self)
        ensures
            r.wf(),
            r.accounts@ == Map::<Seq<u8>, GenesisAccount>::empty(),
            r.validators@.len() == 0,
            r.parameters@ == Map::<Seq<char>, RuntimeValueView>::empty(),
            r.module_states@ == Map::<Seq<u8>, ModuleState>::empty(),
    {
        GenesisState {
            accounts: Table::new(),
            validators: Vec::new(),
            parameters: RuntimeParameters::new(),
            module_states: Table::new(),
        }
    }

    /// Adds (or replaces) the account at its address.
    pub fn add_account(&mut self, account: GenesisAccount)
        requires
            old(self).wf(),
        ensures
            final(self).wf(),
            final(self).accounts@ == old(self).accounts@.insert(account.address.0@, account),
            final(self).validators@ == old(self).validators@,
            final(self).parameters == old(self).parameters,
            final(self).module_states == old(self).module_states,
    {
        let address = account.address;
        self.accounts.insert(address, account);
    }

    /// Adds a validator unless it is already listed.
    pub fn add_validator(&mut self, address: Address)
        requires
            old(self).wf(),
        ensures
            final(self).wf(),
            final(self).validators@ == (if old(self).validators@.contains(address) {
                old(self).validators@
            } else {
                old(self).validators@.push(address)
            }),
            final(self).accounts == old(self).accounts,
            final(self).parameters == old(self).parameters,
            final(self).module_states == old(self).module_states,
    {
        let mut found = false;
        let mut i: usize = 0;
        while i < self.validators.len()
            invariant
                i <= self.validators@.len(),
                found <==> exists|j: int| 0 <= j < i && self.validators@[j] == address,
            decreases self.validators@.len() - i,
        {
            if self.validators[i] == address {
                proof {
                    assert(self.validators@[i as int].0 =~= address.0);
                }
                found = true;
            }
            i = i + 1;
        }
        proof {
            if self.validators@.contains(address) {
                let j = choose|j: int| 0 <= j < self.validators@.len() && self.validators@[j] == address;
                assert(self.validators@[j] == address);
            }
        }
        if !found {
            self.validators.push(address);
        }
    }

    pub fn get_account(&self, address: &Address) -> (r: Option<&GenesisAccount>)
        requires
            self.wf(),
        ensures
            r is Some <==> self.accounts@.dom().contains(address.0@),
            r matches Some(a) ==> *a == self.accounts@[address.0@],
    {
        self.accounts.get(address)
    }

    /// The root of the state (see `genesis_state_root_spec`).
    pub fn root(&self) -> (r: Hash32)
        requires
            self.wf(),
        ensures
            r.0@ == genesis_state_root_spec(self.accounts@, self.validators@),
    {
        let keys = self.accounts.sorted_keys();
        let ghost order = sorted_order(self.accounts@.dom());
        let ghost m = self.accounts@;
        let mut data: Vec<u8> = Vec::new();
        let mut i: usize = 0;
        while i < keys.len()
            invariant
                self.wf(),
                m == self.accounts@,
                views(keys@) == order,
                order.to_set() == m.dom(),
                i <= keys@.len(),
                data@ == state_accounts_bytes(order.take(i as int), m),
            decreases keys@.len() - i,
        {
            assert(views(keys@)[i as int] == keys@[i as int].0@);
            assert(m.dom().contains(keys@[i as int].0@)) by {
                assert(order.to_set().contains(order[i as int]));
            }
            proof {
                assert(order.take(i + 1).drop_last() =~= order.take(i as int));
            }
            push_all(&mut data, keys[i].0.as_slice());
            let acc = self.accounts.get(&keys[i]).unwrap();
            push_le(&mut data, acc.balance, 16);
            i = i + 1;
        }
        assert(order.take(i as int) =~= order);
        let ghost prefix = data@;
        let mut j: usize = 0;
        while j < self.validators.len()
            invariant
                j <= self.validators@.len(),
                data@ == prefix + validators_bytes(self.validators@.take(j as int)),
            decreases self.validators@.len() - j,
        {
            proof {
                assert(self.validators@.take(j + 1).drop_last() =~= self.validators@.take(j as int));
            }
            push_all(&mut data, self.validators[j].0.as_slice());
            proof {
                assert(data@ =~= prefix + validators_bytes(self.validators@.take(j + 1)));
            }
            j = j + 1;
        }
        assert(self.validators@.take(j as int) =~= self.validators@);
        Hash32(sha256(data.as_slice()))
    }
}

impl Default for GenesisState {
    fn default() -> (r: Self)
        ensures
            r.wf(),
            r.accounts@ == Map::<Seq<u8>, GenesisAccount>::empty(),
            r.validators@.len() == 0,
            r.parameters@ == Map::<Seq<char>, RuntimeValueView>::empty(),
            r.module_states@ == Map::<Seq<u8>, ModuleState>::empty(),
    {
        GenesisState::new()
    }
}

/// The identity of a network: its id, chain id and genesis hash.
#[derive(Clone, Debug)]
pub struct NetworkIdentity {
    pub network_id: String,
    pub chain_id: u32,
    pub genesis_hash: Hash32,
    pub protocol_version: u32,
}

impl NetworkIdentity {
    /// The identity of a network started from `genesis_config`.
    pub fn new(network_id: String, chain_id: u32, genesis_config: &GenesisConfig) -> (r: Self)
        ensures
            r.network_id == network_id,
            r.chain_id == chain_id,
            r.genesis_hash.0@ == genesis_config_root_spec(
                genesis_config.name@,
                genesis_config.id@,
                genesis_config.chain_id,
                genesis_config.accounts@,
            ),
            r.protocol_version == 1,
    {
        let genesis_hash = genesis_config.root();
        NetworkIdentity { network_id, chain_id, genesis_hash, protocol_version: 1 }
    }

    /// Two identities belong to the same network when chain id and genesis
    /// hash agree.
    pub fn verify(&self, other: &NetworkIdentity) -> (r: bool)
        ensures
            r == (self.chain_id == other.chain_id && self.genesis_hash.0@ == other.genesis_hash.0@),
    {
        self.chain_id == other.chain_id && self.genesis_hash == other.genesis_hash
    }
}

/// A runtime composed of modules, with an optional genesis configuration.
pub struct Blueprint {
    pub name: String,
    pub version: (u32, u32, u32),
    pub modules: Vec<Box<dyn TetcoreModule>>,
    pub genesis_config: Option<GenesisConfig>,
}

/// The accounts a list of genesis accounts yields: each stored under its
/// address, a later one replacing an earlier one.
pub open spec fn genesis_accounts(s: Seq<GenesisAccount>) -> Map<Seq<u8>, GenesisAccountView>
    decreases s.len(),
{
    if s.len() == 0 {
        Map::empty()
    } else {
        genesis_accounts(s.drop_last()).insert(s.last().address.0@, s.last()@)
    }
}

/// A list of validators without repeats, in order of first appearance.
pub open spec fn dedup_validators(s: Seq<Address>) -> Seq<Address>
    decreases s.len(),
{
    if s.len() == 0 {
        Seq::empty()
    } else {
        let d = dedup_validators(s.drop_last());
        if d.contains(s.last()) {
            d
        } else {
            d.push(s.last())
        }
    }
}

/// The genesis state a blueprint builds before its modules initialize it:
/// the configured accounts, validators and parameters, or nothing without a
/// configuration, and no module state.
pub open spec fn genesis_base(s: GenesisState, config: Option<GenesisConfig>) -> bool {
    &&& s.wf()
    &&& s.module_states@ == Map::<Seq<u8>, ModuleState>::empty()
    &&& match config {
        Some(c) => {
            &&& s.accounts@.map_values(|a: GenesisAccount| a@) == genesis_accounts(c.accounts@)
            &&& s.validators@ == dedup_validators(c.initial_validators@)
            &&& s.parameters@ == c.parameters@
        },
        None => {
            &&& s.accounts@ == Map::<Seq<u8>, GenesisAccount>::empty()
            &&& s.validators@.len() == 0
            &&& s.parameters@ == Map::<Seq<char>, RuntimeValueView>::empty()
        },
    }
}

/// The modules initializing the genesis state in turn: `trace[j + 1]` is
/// what the module at `j` made of `trace[j]`, for the first `k` modules,
/// each of which succeeded.
pub open spec fn genesis_trace(modules: Seq<Box<dyn TetcoreModule>>, trace: Seq<GenesisState>, k: int) -> bool {
    &&& 0 <= k <= modules.len()
    &&& trace.len() == k + 1
    &&& forall|j: int| 0 <= j < k ==> (#[trigger] modules[j]).initialize_allows(trace[j], trace[j + 1], Ok(()))
}

impl Blueprint {
    pub fn new(name: String, version: (u32, u32, u32)) -> (r: Self)
        ensures
            r.name == name && r.version == version,
            r.modules@.len() == 0,
            r.genesis_config is None,
    {
        Blueprint { name, version, modules: Vec::new(), genesis_config: None }
    }

    /// Adds a module, refusing more than the maximum number of modules and
    /// a module whose identifier one of the present modules also reports.
    pub fn with_module(self, module: Box<dyn TetcoreModule>) -> (r: Result<Self, BlueprintError>)
        ensures
            self.modules@.len() >= MAX_MODULES ==> r == Err::<Self, BlueprintError>(BlueprintError::TooManyModules),
            self.modules@.len() < MAX_MODULES ==> match r {
                Ok(b) => b.modules@ == self.modules@.push(module) && b.name == self.name && b.version
                    == self.version && b.genesis_config == self.genesis_config,
                Err(e) => e == BlueprintError::DuplicateModule,
            },
            self.modules@.len() < MAX_MODULES ==> (r is Err <==> exists|i: int|
                0 <= i < self.modules@.len() && (#[trigger] self.modules@[i]).reported_id().0@
                    == module.reported_id().0@),
    {
        if self.modules.len() >= MAX_MODULES {
            return Err(BlueprintError::TooManyModules);
        }
        let id = module.module_id();
        let mut i: usize = 0;
        while i < self.modules.len()
            invariant
                i <= self.modules@.len(),
                self.modules@.len() < MAX_MODULES,
                id == module.reported_id(),
                forall|j: int| 0 <= j < i ==> (#[trigger] self.modules@[j]).reported_id().0@ != id.0@,
            decreases self.modules@.len() - i,
        {
            if self.modules[i].module_id() == id {
                return Err(BlueprintError::DuplicateModule);
            }
            i = i + 1;
        }
        let mut b = self;
        b.modules.push(module);
        Ok(b)
    }

    pub fn with_genesis(self, config: GenesisConfig) -> (r: Self)
        ensures
            r.name == self.name && r.version == self.version && r.modules == self.modules,
            r.genesis_config == Some(config),
    {
        let mut b = self;
        b.genesis_config = Some(config);
        b
    }

    /// The genesis state: the configured accounts (a later one replacing an
    /// earlier one at the same address), validators without repeats and
    /// parameters; then every module initializes it in turn, and a module's
    /// refusal is an invalid genesis.
    pub fn initialize(&self) -> (r: Result<GenesisState, BlueprintError>)
        requires
            self.genesis_config matches Some(c) ==> c.parameters.wf() && forall|i: int|
                0 <= i < c.accounts@.len() ==> (#[trigger] c.accounts@[i]).storage.wf(),
        ensures
            r matches Err(e) ==> e == BlueprintError::InvalidGenesis,
            self.modules@.len() == 0 ==> r is Ok,
            self.modules@.len() == 0 ==> (r matches Ok(s) && genesis_base(s, self.genesis_config)),
            exists|trace: Seq<GenesisState>, k: int|
                #![trigger genesis_trace(self.modules@, trace, k)]
                genesis_trace(self.modules@, trace, k) && genesis_base(trace[0], self.genesis_config) && (k
                    == self.modules@.len() ==> r == Ok::<GenesisState, BlueprintError>(trace[k])) && (k
                    < self.modules@.len() ==> r == Err::<GenesisState, BlueprintError>(BlueprintError::InvalidGenesis)
                    && exists|after: GenesisState, e: ModuleError|
                    #[trigger] self.modules@[k].initialize_allows(trace[k], after, Err(e))),
    {
        let mut state = GenesisState::new();
        match &self.genesis_config {
            Some(config) => {
                let mut i: usize = 0;
                proof {
                    assert(state.accounts@.map_values(|a: GenesisAccount| a@) =~= genesis_accounts(config.accounts@.take(0)));
                }
                while i < config.accounts.len()
                    invariant
                        state.wf(),
                        i <= config.accounts@.len(),
                        forall|j: int| 0 <= j < config.accounts@.len() ==> (#[trigger] config.accounts@[j]).storage.wf(),
                        state.accounts@.map_values(|a: GenesisAccount| a@) == genesis_accounts(config.accounts@.take(i as int)),
                        state.validators@.len() == 0,
                        state.parameters@ == Map::<Seq<char>, RuntimeValueView>::empty(),
                        state.module_states@ == Map::<Seq<u8>, ModuleState>::empty(),
                    decreases config.accounts@.len() - i,
                {
                    let a = config.accounts[i].duplicate();
                    let ghost before = state.accounts@;
                    state.add_account(a);
                    proof {
                        assert(config.accounts@.take(i + 1).drop_last() =~= config.accounts@.take(i as int));
                        assert(state.accounts@.map_values(|a: GenesisAccount| a@) =~= before.map_values(
                            |a: GenesisAccount| a@,
                        ).insert(a.address.0@, a@));
                    }
                    i = i + 1;
                }
                assert(config.accounts@.take(i as int) =~= config.accounts@);
                let mut j: usize = 0;
                assert(state.validators@ =~= dedup_validators(config.initial_validators@.take(0)));
                while j < config.initial_validators.len()
                    invariant
                        state.wf(),
                        j <= config.initial_validators@.len(),
                        state.validators@ == dedup_validators(config.initial_validators@.take(j as int)),
                        state.accounts@.map_values(|a: GenesisAccount| a@) == genesis_accounts(config.accounts@),
                        state.parameters@ == Map::<Seq<char>, RuntimeValueView>::empty(),
                        state.module_states@ == Map::<Seq<u8>, ModuleState>::empty(),
                    decreases config.initial_validators@.len() - j,
                {
                    proof {
                        assert(config.initial_validators@.take(j + 1).drop_last() =~= config.initial_validators@.take(
                            j as int,
                        ));
                    }
                    state.add_validator(config.initial_validators[j]);
                    j = j + 1;
                }
                assert(config.initial_validators@.take(j as int) =~= config.initial_validators@);
                state.parameters = config.parameters.duplicate();
            },
            None => {},
        }
        let ghost base = state;
        let ghost mut trace: Seq<GenesisState> = seq![state];
        assert(genesis_base(base, self.genesis_config));
        let mut k: usize = 0;
        while k < self.modules.len()
            invariant
                k <= self.modules@.len(),
                genesis_trace(self.modules@, trace, k as int),
                trace[0] == base,
                genesis_base(base, self.genesis_config),
                trace[k as int] == state,
            decreases self.modules@.len() - k,
        {
            let ghost before = state;
            let res = self.modules[k].initialize(&mut state);
            match res {
                Ok(u) => {
                    proof {
                        assert(res == Ok::<(), ModuleError>(u));
                        let t0 = trace;
                        trace = trace.push(state);
                        assert forall|j: int| 0 <= j < k + 1 implies (#[trigger] self.modules@[j]).initialize_allows(
                            trace[j],
                            trace[j + 1],
                            Ok(()),
                        ) by {
                            if j < k {
                                assert(trace[j] == t0[j] && trace[j + 1] == t0[j + 1]);
                            }
                        }
                    }
                },
                Err(e) => {
                    proof {
                        assert(self.modules@[k as int].initialize_allows(trace[k as int], state, Err(e)));
                        assert(genesis_trace(self.modules@, trace, k as int));
                    }
                    return Err(BlueprintError::InvalidGenesis);
                },
            }
            k = k + 1;
        }
        assert(genesis_trace(self.modules@, trace, k as int));
        Ok(state)
    }

    pub fn module_count(&self) -> (r: usize)
        ensures
            r == self.modules@.len(),
    {
        self.modules.len()
    }

    /// The first module that reports the identifier `id`; `None` when no
    /// module reports it.
    pub fn get_module(&self, id: &ModuleId) -> (r: Option<&Box<dyn TetcoreModule>>)
        ensures
            r is None <==> forall|i: int|
                0 <= i < self.modules@.len() ==> (#[trigger] self.modules@[i]).reported_id().0@ != id.0@,
            r matches Some(m) ==> exists|i: int|
                0 <= i < self.modules@.len() && *m == self.modules@[i] && m.reported_id().0@ == id.0@ && forall|j: int|
                    0 <= j < i ==> (#[trigger] self.modules@[j]).reported_id().0@ != id.0@,
    {
        let mut i: usize = 0;
        while i < self.modules.len()
            invariant
                i <= self.modules@.len(),
                forall|j: int| 0 <= j < i ==> (#[trigger] self.modules@[j]).reported_id().0@ != id.0@,
            decreases self.modules@.len() - i,
        {
            if self.modules[i].module_id() == *id {
                return Some(&self.modules[i]);
            }
            i = i + 1;
        }
        None
    }
}

/// A runtime: its modules and each module's state.
pub struct Runtime {
    pub chain_id: u32,
    pub version: (u32, u32, u32),
    pub modules: Table<ModuleId, Box<dyn TetcoreModule>>,
    pub state: Table<ModuleId, ModuleState>,
}

/// One module state's end of block: the module registered under its
/// identifier takes it from `before` to `after` with `outcome` as that
/// module allows; a state with no module is left as it is.
pub open spec fn block_end_step(
    modules: Map<Seq<u8>, Box<dyn TetcoreModule>>,
    before: (ModuleId, ModuleState),
    after: (ModuleId, ModuleState),
    outcome: Result<(), ModuleError>,
) -> bool {
    &&& after.0 == before.0
    &&& if modules.dom().contains(before.0.0@) {
        modules[before.0.0@].block_end_allows(before.1, after.1, outcome)
    } else {
        after.1 == before.1 && outcome is Ok
    }
}

/// Ending a block over the states `before`, giving `after` and `outcome`,
/// with the first `k` states ended successfully; when `k` is short of the
/// end, the state at `k` is the one that refused with `outcome` and those
/// after it are untouched.
pub open spec fn block_end_run(
    modules: Map<Seq<u8>, Box<dyn TetcoreModule>>,
    before: Seq<(ModuleId, ModuleState)>,
    after: Seq<(ModuleId, ModuleState)>,
    k: int,
    outcome: Result<(), ModuleError>,
) -> bool {
    &&& after.len() == before.len()
    &&& forall|j: int| 0 <= j < k ==> block_end_step(modules, #[trigger] before[j], after[j], Ok(()))
    &&& k == before.len() ==> outcome is Ok
    &&& k < before.len() ==> {
        &&& outcome is Err
        &&& block_end_step(modules, before[k], after[k], outcome)
        &&& forall|j: int| k < j < before.len() ==> #[trigger] after[j] == before[j]
    }
}

/// The roots of the module states of a table, in its order.
pub open spec fn module_roots(s: Seq<(ModuleId, ModuleState)>) -> Seq<Seq<u8>> {
    s.map_values(|e: (ModuleId, ModuleState)| module_root_spec(e.1.storage@))
}

impl Runtime {
    pub open spec fn wf(&self) -> bool {
        &&& self.modules.wf()
        &&& self.state.wf()
    }

    /// Every module state's storage is well formed.
    pub open spec fn states_wf(&self) -> bool {
        forall|k: Seq<u8>| #[trigger] self.state@.dom().contains(k) ==> self.state@[k].storage.wf()
    }

    pub fn new(chain_id: u32, version: (u32, u32, u32)) -> (r: Self)
        ensures
            r.wf(),
            r.states_wf(),
            r.chain_id == chain_id && r.version == version,
            r.modules@ == Map::<Seq<u8>, Box<dyn TetcoreModule>>::empty(),
            r.state@ == Map::<Seq<u8>, ModuleState>::empty(),
    {
        Runtime { chain_id, version, modules: Table::new(), state: Table::new() }
    }

    /// Registers a module under the identifier it reports, with empty
    /// state; refused when a module is registered under that identifier.
    pub fn register_module(&mut self, module: Box<dyn TetcoreModule>) -> (r: Result<(), BlueprintError>)
        requires
            old(self).wf(),
        ensures
            final(self).wf(),
            old(self).states_wf() ==> final(self).states_wf(),
            final(self).chain_id == old(self).chain_id && final(self).version == old(self).version,
            r is Err <==> old(self).modules@.dom().contains(module.reported_id().0@),
            r matches Err(e) ==> e == BlueprintError::DuplicateModule && final(self).modules@ == old(self).modules@
                && final(self).state@ == old(self).state@,
            r is Ok ==> ({
                let id = module.reported_id().0@;
                &&& final(self).modules@ == old(self).modules@.insert(id, module)
                &&& final(self).state@.dom() == old(self).state@.dom().insert(id)
                &&& final(self).state@[id].storage@ == Map::<Seq<u8>, Vec<u8>>::empty()
                &&& forall|k: Seq<u8>|
                    k != id && #[trigger] old(self).state@.dom().contains(k) ==> final(self).state@[k]
                        == old(self).state@[k]
            }),
    {
        let id = module.module_id();
        if self.modules.contains_key(&id) {
            return Err(BlueprintError::DuplicateModule);
        }
        let fresh = ModuleState::new();
        self.state.insert(id, fresh);
        self.modules.insert(id, module);
        Ok(())
    }

    /// Applies a transaction with its module to that module's state, and
    /// returns what the module returns.
    pub fn execute(&mut self, tx: &ModuleTransaction) -> (r: Result<ModuleResult, ModuleError>)
        requires
            old(self).wf(),
        ensures
            final(self).wf(),
            final(self).chain_id == old(self).chain_id && final(self).version == old(self).version,
            final(self).modules == old(self).modules,
            !old(self).modules@.dom().contains(tx.module_id.0@) || !old(self).state@.dom().contains(tx.module_id.0@)
                ==> r == Err::<ModuleResult, ModuleError>(ModuleError::ModuleNotFound) && final(self).state@
                == old(self).state@,
            final(self).state@.dom() == old(self).state@.dom(),
            forall|k: Seq<u8>| k != tx.module_id.0@ && #[trigger] old(self).state@.dom().contains(k) ==> final(self).state@[k]
                == old(self).state@[k],
            ({
                let id = tx.module_id.0@;
                old(self).modules@.dom().contains(id) && old(self).state@.dom().contains(id)
                    ==> old(self).modules@[id].apply_allows(*tx, old(self).state@[id], final(self).state@[id], r)
            }),
    {
        let module = match self.modules.get(&tx.module_id) {
            Some(m) => m,
            None => {
                return Err(ModuleError::ModuleNotFound);
            },
        };
        match self.state.get_mut(&tx.module_id) {
            Some(state) => {
                module.apply(tx, state)
            },
            None => Err(ModuleError::ModuleNotFound),
        }
    }

    /// Ends a block in every module that has state, in the order of the
    /// state table, stopping at the first refusal, which is returned.
    pub fn on_block_end(&mut self) -> (r: Result<(), ModuleError>)
        requires
            old(self).wf(),
        ensures
            final(self).wf(),
            final(self).chain_id == old(self).chain_id && final(self).version == old(self).version,
            final(self).modules == old(self).modules,
            final(self).state@.dom() == old(self).state@.dom(),
            old(self).modules@.len() == 0 ==> r is Ok && final(self).state == old(self).state,
            final(self).state.seq().len() == old(self).state.seq().len(),
            exists|k: int|
                0 <= k <= old(self).state.seq().len() && block_end_run(
                    old(self).modules@,
                    old(self).state.seq(),
                    final(self).state.seq(),
                    k,
                    r,
                ),
    {
        let ghost s0 = *self;
        let n = self.state.len();
        let mut i: usize = 0;
        proof {
            self.modules.lemma_view();
        }
        while i < n
            invariant
                s0 == *old(self),
                self.wf(),
                self.chain_id == s0.chain_id && self.version == s0.version,
                self.modules == s0.modules,
                self.state@.dom() == s0.state@.dom(),
                self.state.seq().len() == n,
                n == s0.state.seq().len(),
                i <= n,
                s0.modules@.len() == 0 ==> self.state == s0.state,
                s0.modules@.dom().finite(),
                forall|j: int|
                    0 <= j < i ==> block_end_step(
                        s0.modules@,
                        #[trigger] s0.state.seq()[j],
                        self.state.seq()[j],
                        Ok(()),
                    ),
                forall|j: int| i <= j < n ==> #[trigger] self.state.seq()[j] == s0.state.seq()[j],
            decreases n - i,
        {
            let id = *self.state.key_at(i);
            proof {
                self.state.lemma_view();
                assert(self.state@.dom().contains(self.state.seq()[i as int].0.kview()));
            }
            let ghost before_seq = self.state.seq();
            let ghost mut step_ok = false;
            let mut failed: Option<ModuleError> = None;
            match self.modules.get(&id) {
                Some(module) => {
                    proof {
                        vstd::set::axiom_set_contains_len(s0.modules@.dom(), id.0@);
                    }
                    let ghost before = self.state@;
                    let st = self.state.value_mut_at(i);
                    let res = module.on_block_end(st);
                    proof {
                        assert(block_end_step(s0.modules@, s0.state.seq()[i as int], self.state.seq()[i as int], res));
                    }
                    match res {
                        Ok(u) => {
                            proof {
                                assert(res == Ok::<(), ModuleError>(u));
                                step_ok = true;
                            }
                        },
                        Err(e) => {
                            failed = Some(e);
                        },
                    }
                    proof {
                        assert(self.state@.dom() =~= before.dom());
                        assert forall|j: int| 0 <= j < n && j != i implies #[trigger] self.state.seq()[j] == before_seq[j] by {}
                    }
                },
                None => {
                    assert(block_end_step(s0.modules@, s0.state.seq()[i as int], self.state.seq()[i as int], Ok(())));
                    proof {
                        step_ok = true;
                    }
                },
            }
            assert(failed is None ==> step_ok && block_end_step(s0.modules@, s0.state.seq()[i as int], self.state.seq()[i as int], Ok(())));
            match failed {
                Some(e) => {
                    assert(block_end_run(s0.modules@, s0.state.seq(), self.state.seq(), i as int, Err(e)));
                    return Err(e);
                },
                None => {
                    assert forall|j: int| 0 <= j < i + 1 implies block_end_step(
                        s0.modules@,
                        #[trigger] s0.state.seq()[j],
                        self.state.seq()[j],
                        Ok(()),
                    ) by {
                        if j < i {
                            assert(self.state.seq()[j] == before_seq[j]);
                            assert(block_end_step(s0.modules@, s0.state.seq()[j], before_seq[j], Ok(())));
                        } else {
                            assert(step_ok);
                        }
                    }
                },
            }
            i = i + 1;
        }
        assert(block_end_run(s0.modules@, s0.state.seq(), self.state.seq(), n as int, Ok(())));
        Ok(())
    }

    /// The Merkle root of the roots of the module states, taken in
    /// non-decreasing byte order.
    pub fn state_root(&self) -> (r: Hash32)
        requires
            self.wf(),
            self.states_wf(),
        ensures
            exists|roots: Seq<[u8; 32]>, s: Seq<[u8; 32]>|
                #![trigger arr_views(roots), arr_views(s)]
                arr_views(roots) == module_roots(self.state.seq()) && s.to_multiset() == roots.to_multiset()
                    && sorted_le(arr_views(s)) && r.0@ == merkle_fold(arr_views(s)),
    {
        let ghost src = self.state.seq();
        proof {
            self.state.lemma_view();
        }
        let n = self.state.len();
        let mut roots: Vec<[u8; 32]> = Vec::new();
        let mut i: usize = 0;
        while i < n
            invariant
                self.wf(),
                self.states_wf(),
                src == self.state.seq(),
                n == src.len(),
                i <= n,
                forall|j: int| 0 <= j < n ==> self.state@.dom().contains((#[trigger] src[j]).0.0@) && self.state@[src[j].0.0@]
                    == src[j].1,
                arr_views(roots@) == module_roots(src).take(i as int),
            decreases n - i,
        {
            let st = self.state.value_at(i);
            let h = st.root();
            let ghost before = roots@;
            roots.push(h.0);
            proof {
                assert(arr_views(roots@) =~= arr_views(before).push(h.0@));
                assert(module_roots(src).take(i + 1) =~= module_roots(src).take(i as int).push(module_roots(src)[i as int]));
                assert(self.state@.dom().contains(src[i as int].0.0@));
            }
            i = i + 1;
        }
        proof {
            assert(module_roots(src).take(n as int) =~= module_roots(src));
        }
        let ghost all = roots@;
        let sorted = sort_hashes(roots);
        let root = merkle_root(sorted);
        proof {
            assert(arr_views(all) == module_roots(self.state.seq()));
        }
        Hash32(root)
    }

    pub fn module_count(&self) -> (r: usize)
        requires
            self.wf(),
        ensures
            r == self.modules@.len(),
    {
        self.modules.len()
    }
}

} // verus!
