//! API records: endpoints, requests and responses, prompt commitments, the
//! shard storage ledger, availability challenges and the route registry.

use vstd::prelude::*;
use crate::bytes::{push_all, push_le, le_bytes, bytes32_eq};
use crate::digest::{sha256, sha256_spec};
use crate::kernel::{Address, Hash32};

verus! {

/// The UTF-8 bytes of a string.
pub open spec fn utf8(s: Seq<char>) -> Seq<u8> {
    vstd::utf8::encode_utf8(s)
}

#[derive(Clone, Debug)]
pub struct ApiEndpoint {
    pub path: String,
    pub method: ApiMethod,
    pub auth_required: bool,
    pub rate_limit: Option<RateLimit>,
}

#[derive(Clone, Copy, Debug, PartialEq, Eq, Structural)]
pub enum ApiMethod {
    Get,
    Post,
    Put,
    Delete,
}

#[derive(Clone, Copy, Debug, PartialEq, Eq, Structural)]
pub struct RateLimit {
    pub max_requests: u32,
    pub window_blocks: u32,
}

impl Default for RateLimit {
    fn default() -> (r: Self)
        ensures
            r == (RateLimit { max_requests: 1000, window_blocks: 100 }),
    {
        RateLimit { max_requests: 1000, window_blocks: 100 }
    }
}

#[derive(Clone, Debug)]
pub struct ApiRequest {
    pub request_id: Hash32,
    pub endpoint: String,
    pub sender: Address,
    pub payload: Vec<u8>,
    pub timestamp: u64,
    pub block_number: u64,
    pub gas_limit: u64,
}

/// The bytes digested into a request's id.
pub open spec fn request_id_input(endpoint: Seq<char>, sender: Address, payload: Seq<u8>, gas_limit: u64) -> Seq<u8> {
    utf8(endpoint) + sender.0@ + payload + le_bytes(gas_limit as nat, 8)
}

impl ApiRequest {
    /// A request whose id is the digest of its endpoint, sender, payload and
    /// gas limit.
    pub fn new(endpoint: String, sender: Address, payload: Vec<u8>, gas_limit: u64) -> (r: Self)
        ensures
            r.request_id.0@ == sha256_spec(request_id_input(endpoint@, sender, payload@, gas_limit)),
            r.endpoint == endpoint,
            r.sender == sender,
            r.payload@ == payload@,
            r.timestamp == 0,
            r.block_number == 0,
            r.gas_limit == gas_limit,
    {
        let mut input: Vec<u8> = Vec::new();
        push_all(&mut input, endpoint.as_str().as_bytes());
        push_all(&mut input, sender.0.as_slice());
        push_all(&mut input, payload.as_slice());
        push_le(&mut input, gas_limit as u128, 8);
        let request_id = sha256(input.as_slice());
        ApiRequest {
            request_id: Hash32(request_id),
            endpoint,
            sender,
            payload,
            timestamp: 0,
            block_number: 0,
            gas_limit,
        }
    }
}

#[derive(Clone, Debug)]
pub struct ApiResponse {
    pub request_id: Hash32,
    pub status: ApiResponseStatus,
    pub data: Vec<u8>,
    pub gas_used: u64,
    pub timestamp: u64,
}

#[derive(Clone, Copy, Debug, PartialEq, Eq, Structural)]
pub enum ApiResponseStatus {
    Success,
    InvalidRequest,
    Unauthorized,
    NotFound,
    RateLimited,
    GasExceeded,
    InternalError,
}

/// A hiding commitment to a prompt: `prompt_hash` digests the prompt and the
/// salt, `commitment` digests `prompt_hash` and the salt again.
#[derive(Clone, Debug)]
pub struct PromptCommitment {
    pub commitment: Hash32,
    pub salt: Vec<u8>,
    pub prompt_hash: Hash32,
}

/// Whether `c` opens to `prompt`: its prompt hash is the digest of the
/// prompt followed by the salt.
pub open spec fn opens_to(c: PromptCommitment, prompt: Seq<u8>) -> bool {
    c.prompt_hash.0@ == sha256_spec(prompt + c.salt@)
}

impl PromptCommitment {
    pub fn new(prompt: &[u8], salt: Vec<u8>) -> (r: Self)
        ensures
            r.prompt_hash.0@ == sha256_spec(prompt@ + salt@),
            r.commitment.0@ == sha256_spec(sha256_spec(prompt@ + salt@) + salt@),
            r.salt@ == salt@,
    {
        let mut prompt_input: Vec<u8> = Vec::new();
        push_all(&mut prompt_input, prompt);
        push_all(&mut prompt_input, salt.as_slice());
        let prompt_hash = sha256(prompt_input.as_slice());
        let mut commitment_input: Vec<u8> = Vec::new();
        push_all(&mut commitment_input, prompt_hash.as_slice());
        push_all(&mut commitment_input, salt.as_slice());
        let commitment = sha256(commitment_input.as_slice());
        PromptCommitment { commitment: Hash32(commitment), salt, prompt_hash: Hash32(prompt_hash) }
    }

    /// Whether the stored prompt hash is that of `prompt` with this salt.
    pub fn verify(&self, prompt: &[u8]) -> (r: bool)
        ensures
            r == opens_to(*self, prompt@),
    {
        let mut input: Vec<u8> = Vec::new();
        push_all(&mut input, prompt);
        push_all(&mut input, self.salt.as_slice());
        let computed = sha256(input.as_slice());
        bytes32_eq(&self.prompt_hash.0, &computed)
    }
}

/// A commitment made with `PromptCommitment::new` opens to its prompt.
pub proof fn lemma_prompt_commitment_opens(prompt: Seq<u8>, salt: Seq<u8>, c: PromptCommitment)
    requires
        c.prompt_hash.0@ == sha256_spec(prompt + salt),
        c.salt@ == salt,
    ensures
        opens_to(c, prompt),
{
}

impl Default for PromptCommitment {
    /// The commitment of nothing: zero hashes and an empty salt.
    fn default() -> (r: Self)
        ensures
            r.commitment.0@ == crate::bytes::zeros32(),
            r.prompt_hash.0@ == crate::bytes::zeros32(),
            r.salt@ == Seq::<u8>::empty(),
    {
        PromptCommitment { commitment: Hash32::empty(), salt: Vec::new(), prompt_hash: Hash32::empty() }
    }
}

#[derive(Clone, Debug)]
pub struct PromptEntry {
    pub prompt_id: Hash32,
    pub model_id: Hash32,
    pub version: u32,
    pub sender: Address,
    pub prompt_commitment: Hash32,
    pub max_output_tokens: u32,
    pub pricing_mode: u8,
    pub relay_mode: u8,
    pub deadline_height: u64,
    pub escrow_amount: u128,
    pub status: PromptStatus,
    pub created_at: u64,
}

#[derive(Clone, Copy, Debug, PartialEq, Eq, Structural)]
pub enum PromptStatus {
    Pending,
    Settled,
    Expired,
    Disputed,
}

/// Whether `a` occurs in `s`.
pub open spec fn addr_in(s: Seq<Address>, a: Address) -> bool {
    exists|i: int| 0 <= i < s.len() && s[i].0@ == a.0@
}

/// `i` is the first position of `a` in `s`.
pub open spec fn first_addr_at(s: Seq<Address>, a: Address, i: int) -> bool {
    0 <= i < s.len() && s[i].0@ == a.0@ && forall|j: int| 0 <= j < i ==> s[j].0@ != a.0@
}

/// `i` is the first position of a pair whose address is `a`.
pub open spec fn first_pair_at(s: Seq<(Address, u128)>, a: Address, i: int) -> bool {
    0 <= i < s.len() && s[i].0.0@ == a.0@ && forall|j: int| 0 <= j < i ==> s[j].0.0@ != a.0@
}

/// The first position of `a` in `v`, if any.
pub fn position_of_address(v: &Vec<Address>, a: &Address) -> (r: Option<usize>)
    ensures
        r is None <==> !addr_in(v@, *a),
        r matches Some(i) ==> first_addr_at(v@, *a, i as int),
{
    let mut i: usize = 0;
    while i < v.len()
        invariant
            i <= v@.len(),
            forall|j: int| 0 <= j < i ==> v@[j].0@ != a.0@,
        decreases v@.len() - i,
    {
        if bytes32_eq(&v[i].0, &a.0) {
            return Some(i);
        }
        i = i + 1;
    }
    None
}

/// The first position of a pair whose address is `a`, if any.
pub fn position_of_pair(v: &Vec<(Address, u128)>, a: &Address) -> (r: Option<usize>)
    ensures
        r is None <==> forall|j: int| 0 <= j < v@.len() ==> v@[j].0.0@ != a.0@,
        r matches Some(i) ==> first_pair_at(v@, *a, i as int),
{
    let mut i: usize = 0;
    while i < v.len()
        invariant
            i <= v@.len(),
            forall|j: int| 0 <= j < i ==> v@[j].0.0@ != a.0@,
        decreases v@.len() - i,
    {
        if bytes32_eq(&v[i].0.0, &a.0) {
            return Some(i);
        }
        i = i + 1;
    }
    None
}

/// The storage nodes of one shard of a model version, with the collateral
/// each has locked.
#[derive(Clone, Debug)]
pub struct ShardStorageEntry {
    pub model_id: Hash32,
    pub version: u32,
    pub shard_index: u32,
    pub storage_nodes: Vec<Address>,
    pub collateral_locked: Vec<(Address, u128)>,
    pub registered_at: u64,
}

impl ShardStorageEntry {
    pub fn new(model_id: Hash32, version: u32, shard_index: u32) -> (r: Self)
        ensures
            r.model_id == model_id,
            r.version == version,
            r.shard_index == shard_index,
            r.storage_nodes@.len() == 0,
            r.collateral_locked@.len() == 0,
            r.registered_at == 0,
    {
        ShardStorageEntry {
            model_id,
            version,
            shard_index,
            storage_nodes: Vec::new(),
            collateral_locked: Vec::new(),
            registered_at: 0,
        }
    }

    /// Adds `node` with its collateral, unless it is already a storage node.
    pub fn register_node(&mut self, node: Address, collateral: u128)
        ensures
            addr_in(old(self).storage_nodes@, node) ==> *final(self) == *old(self),
            !addr_in(old(self).storage_nodes@, node) ==> final(self).storage_nodes@ == old(self).storage_nodes@.push(node) && final(self).collateral_locked@ == old(self).collateral_locked@.push((node, collateral)),
            final(self).model_id == old(self).model_id && final(self).version == old(self).version
                && final(self).shard_index == old(self).shard_index
                && final(self).registered_at == old(self).registered_at,
    {
        if position_of_address(&self.storage_nodes, &node).is_none() {
            self.storage_nodes.push(node);
            self.collateral_locked.push((node, collateral));
        }
    }

    /// Removes `node` and hands back the collateral recorded for it; `None`
    /// where it is no storage node, or where no collateral is recorded.
    pub fn deregister_node(&mut self, node: &Address) -> (r: Option<u128>)
        ensures
            !addr_in(old(self).storage_nodes@, *node) ==> r is None && *final(self) == *old(self),
            addr_in(old(self).storage_nodes@, *node) ==> exists|i: int|
                first_addr_at(old(self).storage_nodes@, *node, i) && final(self).storage_nodes@ == old(self).storage_nodes@.remove(i),
            addr_in(old(self).storage_nodes@, *node) ==> match r {
                Some(c) => exists|k: int|
                    first_pair_at(old(self).collateral_locked@, *node, k) && c == old(self).collateral_locked@[k].1 && final(self).collateral_locked@ == old(self).collateral_locked@.remove(k),
                None => (forall|j: int|
                    0 <= j < old(self).collateral_locked@.len() ==> old(self).collateral_locked@[j].0.0@
                        != node.0@) && final(self).collateral_locked@ == old(self).collateral_locked@,
            },
            final(self).model_id == old(self).model_id && final(self).version == old(self).version
                && final(self).shard_index == old(self).shard_index
                && final(self).registered_at == old(self).registered_at,
    {
        match position_of_address(&self.storage_nodes, node) {
            Some(pos) => {
                self.storage_nodes.remove(pos);
                match position_of_pair(&self.collateral_locked, node) {
                    Some(k) => {
                        let (_, collateral) = self.collateral_locked.remove(k);
                        Some(collateral)
                    },
                    None => None,
                }
            },
            None => None,
        }
    }
}

/// Whether `e` is the entry of that shard of that model version.
pub open spec fn entry_matches(e: ShardStorageEntry, model_id: Hash32, version: u32, shard_index: u32) -> bool {
    e.model_id.0@ == model_id.0@ && e.version == version && e.shard_index == shard_index
}

/// `i` is the first position of an entry of that shard.
pub open spec fn first_entry_at(s: Seq<ShardStorageEntry>, model_id: Hash32, version: u32, shard_index: u32, i: int) -> bool {
    0 <= i < s.len() && entry_matches(s[i], model_id, version, shard_index) && forall|j: int|
        0 <= j < i ==> !entry_matches(s[j], model_id, version, shard_index)
}

/// Whether some entry of `s` is of that shard.
pub open spec fn has_entry(s: Seq<ShardStorageEntry>, model_id: Hash32, version: u32, shard_index: u32) -> bool {
    exists|i: int| 0 <= i < s.len() && entry_matches(s[i], model_id, version, shard_index)
}

/// The storage entries of all shards.
#[derive(Clone, Debug)]
pub struct ShardStorageLedger {
    pub entries: Vec<ShardStorageEntry>,
}

impl ShardStorageLedger {
    pub fn new() -> (r: Self)
        ensures
            r.entries@.len() == 0,
    {
        ShardStorageLedger { entries: Vec::new() }
    }

    fn position(&self, model_id: Hash32, version: u32, shard_index: u32) -> (r: Option<usize>)
        ensures
            r is None <==> !has_entry(self.entries@, model_id, version, shard_index),
            r matches Some(i) ==> first_entry_at(self.entries@, model_id, version, shard_index, i as int),
    {
        let mut i: usize = 0;
        while i < self.entries.len()
            invariant
                i <= self.entries@.len(),
                forall|j: int| 0 <= j < i ==> !entry_matches(self.entries@[j], model_id, version, shard_index),
            decreases self.entries@.len() - i,
        {
            let e = &self.entries[i];
            if bytes32_eq(&e.model_id.0, &model_id.0) && e.version == version && e.shard_index == shard_index {
                return Some(i);
            }
            i = i + 1;
        }
        None
    }

    /// The first entry of that shard, if any.
    pub fn get_entry(&self, model_id: Hash32, version: u32, shard_index: u32) -> (r: Option<&ShardStorageEntry>)
        ensures
            r is None <==> !has_entry(self.entries@, model_id, version, shard_index),
            r matches Some(e) ==> exists|i: int|
                first_entry_at(self.entries@, model_id, version, shard_index, i) && *e == self.entries@[i],
    {
        match self.position(model_id, version, shard_index) {
            Some(i) => Some(&self.entries[i]),
            None => None,
        }
    }

    /// The first entry of that shard, to be changed in place.
    pub fn get_entry_mut(&mut self, model_id: Hash32, version: u32, shard_index: u32) -> (r: Option<
        &mut ShardStorageEntry,
    >)
        ensures
            r is None <==> !has_entry(old(self).entries@, model_id, version, shard_index),
            r is None ==> final(self).entries@ == old(self).entries@,
            r matches Some(e) ==> exists|i: int|
                first_entry_at(old(self).entries@, model_id, version, shard_index, i) && *e == old(self).entries@[i] && final(self).entries@ == old(self).entries@.update(i, *final(e)),
    {
        match self.position(model_id, version, shard_index) {
            Some(i) => Some(&mut self.entries[i]),
            None => None,
        }
    }

    /// Adds `entry` unless an entry of the same shard is present.
    pub fn add_entry(&mut self, entry: ShardStorageEntry)
        ensures
            has_entry(old(self).entries@, entry.model_id, entry.version, entry.shard_index) ==> final(self).entries@ == old(self).entries@,
            !has_entry(old(self).entries@, entry.model_id, entry.version, entry.shard_index) ==> final(self).entries@ == old(self).entries@.push(entry),
    {
        if self.position(entry.model_id, entry.version, entry.shard_index).is_none() {
            self.entries.push(entry);
        }
    }
}

impl Default for ShardStorageLedger {
    fn default() -> (r: Self)
        ensures
            r.entries@.len() == 0,
    {
        ShardStorageLedger::new()
    }
}

#[derive(Clone, Debug)]
pub struct AvailabilityChallenge {
    pub challenge_id: Hash32,
    pub model_id: Hash32,
    pub version: u32,
    pub shard_index: u32,
    pub challenged_node: Address,
    pub challenger: Address,
    pub challenge_window: u32,
    pub status: ChallengeStatus,
    pub created_at: u64,
}

/// The bytes digested into a challenge's id.
pub open spec fn challenge_id_input(model_id: Hash32, version: u32, shard_index: u32, node: Address) -> Seq<u8> {
    model_id.0@ + le_bytes(version as nat, 4) + le_bytes(shard_index as nat, 4) + node.0@
}

impl AvailabilityChallenge {
    /// A pending challenge whose id digests the model, version, shard and
    /// challenged node.
    pub fn new(
        model_id: Hash32,
        version: u32,
        shard_index: u32,
        challenged_node: Address,
        challenger: Address,
        challenge_window: u32,
    ) -> (r: Self)
        ensures
            r.challenge_id.0@ == sha256_spec(challenge_id_input(model_id, version, shard_index, challenged_node)),
            r.model_id == model_id && r.version == version && r.shard_index == shard_index,
            r.challenged_node == challenged_node && r.challenger == challenger,
            r.challenge_window == challenge_window,
            r.status == ChallengeStatus::Pending,
            r.created_at == 0,
    {
        let mut input: Vec<u8> = Vec::new();
        push_all(&mut input, model_id.0.as_slice());
        push_le(&mut input, version as u128, 4);
        push_le(&mut input, shard_index as u128, 4);
        push_all(&mut input, challenged_node.0.as_slice());
        let challenge_id = sha256(input.as_slice());
        AvailabilityChallenge {
            challenge_id: Hash32(challenge_id),
            model_id,
            version,
            shard_index,
            challenged_node,
            challenger,
            challenge_window,
            status: ChallengeStatus::Pending,
            created_at: 0,
        }
    }

    /// Whether the challenge window has passed at `current_block`.
    pub fn is_expired(&self, current_block: u64) -> (r: bool)
        requires
            self.created_at + self.challenge_window <= u64::MAX,
        ensures
            r == (current_block > self.created_at + self.challenge_window),
    {
        current_block > self.created_at + self.challenge_window as u64
    }
}

#[derive(Clone, Copy, Debug, PartialEq, Eq, Structural)]
pub enum ChallengeStatus {
    Pending,
    Success,
    Failed,
    Expired,
}

#[derive(Clone, Debug)]
pub struct ShardProof {
    pub challenge_id: Hash32,
    pub shard_hash: Hash32,
    pub merkle_proof: Vec<u8>,
    pub signature: Vec<u8>,
    pub submitted_at: u64,
}

#[derive(Clone, Debug)]
pub struct ApiRoute {
    pub route_id: Hash32,
    pub path: String,
    pub handler_module: String,
    pub handler_method: String,
    pub auth_level: AuthLevel,
    pub enabled: bool,
}

impl ApiRoute {
    /// An enabled public route whose id digests its path and handler.
    pub fn new(path: String, handler_module: String, handler_method: String) -> (r: Self)
        ensures
            r.route_id.0@ == sha256_spec(utf8(path@) + utf8(handler_module@) + utf8(handler_method@)),
            r.path == path && r.handler_module == handler_module && r.handler_method == handler_method,
            r.auth_level == AuthLevel::Public,
            r.enabled,
    {
        let mut input: Vec<u8> = Vec::new();
        push_all(&mut input, path.as_str().as_bytes());
        push_all(&mut input, handler_module.as_str().as_bytes());
        push_all(&mut input, handler_method.as_str().as_bytes());
        let route_id = sha256(input.as_slice());
        ApiRoute {
            route_id: Hash32(route_id),
            path,
            handler_module,
            handler_method,
            auth_level: AuthLevel::Public,
            enabled: true,
        }
    }
}

#[derive(Clone, Copy, Debug, PartialEq, Eq, Structural)]
pub enum AuthLevel {
    Public,
    User,
    Operator,
    Governance,
}

#[derive(Clone, Debug)]
pub struct RelayConfig {
    pub relay_address: Address,
    pub supported_endpoints: Vec<String>,
    pub fee_bps: u16,
    pub active: bool,
}

impl Default for RelayConfig {
    fn default() -> (r: Self)
        ensures
            r.relay_address.0@ == crate::bytes::zeros32(),
            r.supported_endpoints@.len() == 0,
            r.fee_bps == 0,
            r.active,
    {
        RelayConfig {
            relay_address: Address::from_bytes(crate::bytes::zero32()),
            supported_endpoints: Vec::new(),
            fee_bps: 0,
            active: true,
        }
    }
}

/// The routes and relays the API serves.
#[derive(Clone, Debug)]
pub struct ApiRegistry {
    pub routes: Vec<ApiRoute>,
    pub relays: Vec<RelayConfig>,
}

impl ApiRegistry {
    pub fn new() -> (r: Self)
        ensures
            r.routes@.len() == 0,
            r.relays@.len() == 0,
    {
        ApiRegistry { routes: Vec::new(), relays: Vec::new() }
    }

    /// Adds `route` unless a route with the same path is present.
    pub fn register_route(&mut self, route: ApiRoute)
        ensures
            final(self).relays@ == old(self).relays@,
            (exists|i: int| 0 <= i < old(self).routes@.len() && old(self).routes@[i].path@ == route.path@)
                ==> final(self).routes@ == old(self).routes@,
            !(exists|i: int| 0 <= i < old(self).routes@.len() && old(self).routes@[i].path@ == route.path@)
                ==> final(self).routes@ == old(self).routes@.push(route),
    {
        let mut i: usize = 0;
        while i < self.routes.len()
            invariant
                i <= self.routes@.len(),
                forall|j: int| 0 <= j < i ==> self.routes@[j].path@ != route.path@,
            decreases self.routes@.len() - i,
        {
            if <String as PartialEq>::eq(&self.routes[i].path, &route.path) {
                return;
            }
            i = i + 1;
        }
        self.routes.push(route);
    }

    /// The first enabled route with path `path`, if any.
    pub fn get_route(&self, path: &str) -> (r: Option<&ApiRoute>)
        ensures
            r is None <==> !(exists|i: int|
                0 <= i < self.routes@.len() && self.routes@[i].path@ == path@ && self.routes@[i].enabled),
            r matches Some(route) ==> exists|i: int|
                0 <= i < self.routes@.len() && self.routes@[i] == *route && route.path@ == path@ && route.enabled
                    && forall|j: int|
                    0 <= j < i ==> !(self.routes@[j].path@ == path@ && self.routes@[j].enabled),
    {
        let wanted: String = path.to_owned();
        let mut i: usize = 0;
        while i < self.routes.len()
            invariant
                i <= self.routes@.len(),
                wanted@ == path@,
                forall|j: int| 0 <= j < i ==> !(self.routes@[j].path@ == path@ && self.routes@[j].enabled),
            decreases self.routes@.len() - i,
        {
            if <String as PartialEq>::eq(&self.routes[i].path, &wanted) && self.routes[i].enabled {
                return Some(&self.routes[i]);
            }
            i = i + 1;
        }
        None
    }

    /// Adds `relay` unless a relay with the same address is present.
    pub fn register_relay(&mut self, relay: RelayConfig)
        ensures
            final(self).routes@ == old(self).routes@,
            (exists|i: int|
                0 <= i < old(self).relays@.len() && old(self).relays@[i].relay_address.0@ == relay.relay_address.0@)
                ==> final(self).relays@ == old(self).relays@,
            !(exists|i: int|
                0 <= i < old(self).relays@.len() && old(self).relays@[i].relay_address.0@ == relay.relay_address.0@)
                ==> final(self).relays@ == old(self).relays@.push(relay),
    {
        let mut i: usize = 0;
        while i < self.relays.len()
            invariant
                i <= self.relays@.len(),
                forall|j: int| 0 <= j < i ==> self.relays@[j].relay_address.0@ != relay.relay_address.0@,
            decreases self.relays@.len() - i,
        {
            if bytes32_eq(&self.relays[i].relay_address.0, &relay.relay_address.0) {
                return;
            }
            i = i + 1;
        }
        self.relays.push(relay);
    }
}

impl Default for ApiRegistry {
    fn default() -> (r: Self)
        ensures
            r.routes@.len() == 0,
            r.relays@.len() == 0,
    {
        ApiRegistry::new()
    }
}

} // verus!
