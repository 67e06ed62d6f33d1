//! Validator discovery: validator records and endpoints, snapshots of
//! validator sets and their roots, discovery requests and responses, the
//! registry of known validators, sessions and performance.

use vstd::prelude::*;
use crate::bytes::{bytes32_eq, le_bytes, push_all, push_le};
use crate::digest::{sha256, sha256_spec};
use crate::kernel::{Address, Hash32, empty_hash32};
use crate::primitives::api::addr_in;
use crate::primitives::consensus::is_permutation;

verus! {

#[derive(Clone, Debug)]
pub struct ValidatorInfo {
    pub account_id: Address,
    pub stake: u128,
    pub commission: u8,
    pub active: bool,
    pub discovered_at: u64,
    pub last_heartbeat: u64,
    pub peer_id: Option<String>,
    pub listen_addresses: Vec<String>,
    pub endpoint: Option<ValidatorEndpoint>,
}

impl ValidatorInfo {
    pub fn new(account_id: Address, stake: u128) -> (r: Self)
        ensures
            r.account_id == account_id && r.stake == stake && r.commission == 0 && r.active,
            r.discovered_at == 0 && r.last_heartbeat == 0 && r.peer_id is None,
            r.listen_addresses@.len() == 0 && r.endpoint is None,
    {
        ValidatorInfo {
            account_id,
            stake,
            commission: 0,
            active: true,
            discovered_at: 0,
            last_heartbeat: 0,
            peer_id: None,
            listen_addresses: Vec::new(),
            endpoint: None,
        }
    }

    /// Whether the last heartbeat is less than `heartbeat_timeout` blocks old.
    pub fn is_online(&self, current_block: u64, heartbeat_timeout: u64) -> (r: bool)
        ensures
            r == (current_block.saturating_sub(self.last_heartbeat) < heartbeat_timeout),
    {
        current_block.saturating_sub(self.last_heartbeat) < heartbeat_timeout
    }

    pub fn update_heartbeat(&mut self, block_number: u64)
        ensures
            final(self).last_heartbeat == block_number,
            final(self).account_id == old(self).account_id && final(self).stake == old(self).stake,
            final(self).active == old(self).active && final(self).commission == old(self).commission,
    {
        self.last_heartbeat = block_number;
    }
}

#[derive(Clone, Debug)]
pub struct ValidatorEndpoint {
    pub rpc_address: String,
    pub p2p_address: String,
    pub wasm_runtime: Option<String>,
    pub api_versions: Vec<ApiVersion>,
}

#[derive(Clone, Debug)]
pub struct ApiVersion {
    pub spec_version: u32,
    pub impl_version: u32,
    pub apis: Vec<([u8; 8], u32)>,
}

#[derive(Clone, Debug)]
pub struct ValidatorSetSnapshot {
    pub set_id: u64,
    pub validators: Vec<ValidatorInfo>,
    pub total_stake: u128,
    pub block_number: u64,
    pub root_hash: Hash32,
}

/// The stake of all validators.
pub open spec fn stake_sum(vs: Seq<ValidatorInfo>) -> int
    decreases vs.len(),
{
    if vs.len() == 0 {
        0
    } else {
        stake_sum(vs.drop_last()) + vs.last().stake
    }
}

proof fn lemma_stake_sum_prefix(vs: Seq<ValidatorInfo>, i: int)
    requires
        0 <= i <= vs.len(),
    ensures
        0 <= stake_sum(vs.take(i)) <= stake_sum(vs),
    decreases vs.len() - i,
{
    if i < vs.len() {
        lemma_stake_sum_prefix(vs, i + 1);
        assert(vs.take(i + 1).drop_last() =~= vs.take(i));
    } else {
        assert(vs.take(i) =~= vs);
    }
    lemma_stake_sum_nonneg(vs.take(i));
}

proof fn lemma_stake_sum_nonneg(vs: Seq<ValidatorInfo>)
    ensures
        stake_sum(vs) >= 0,
    decreases vs.len(),
{
    if vs.len() > 0 {
        lemma_stake_sum_nonneg(vs.drop_last());
    }
}

/// Each validator's account, stake (16 bytes) and commission (1 byte).
pub open spec fn snapshot_entries(vs: Seq<ValidatorInfo>) -> Seq<u8>
    decreases vs.len(),
{
    if vs.len() == 0 {
        Seq::empty()
    } else {
        snapshot_entries(vs.drop_last()) + vs.last().account_id.0@ + le_bytes(vs.last().stake as nat, 16) + le_bytes(
            vs.last().commission as nat,
            1,
        )
    }
}

impl ValidatorSetSnapshot {
    /// A snapshot whose total is the validators' stake.
    pub fn new(set_id: u64, validators: Vec<ValidatorInfo>) -> (r: Self)
        requires
            stake_sum(validators@) <= u128::MAX,
        ensures
            r.set_id == set_id && r.validators == validators,
            r.total_stake == stake_sum(validators@),
            r.block_number == 0 && r.root_hash == empty_hash32(),
    {
        let mut total: u128 = 0;
        let mut i: usize = 0;
        while i < validators.len()
            invariant
                i <= validators@.len(),
                stake_sum(validators@) <= u128::MAX,
                total == stake_sum(validators@.take(i as int)),
            decreases validators@.len() - i,
        {
            proof {
                assert(validators@.take(i + 1).drop_last() =~= validators@.take(i as int));
                lemma_stake_sum_prefix(validators@, i + 1);
            }
            total = total + validators[i].stake;
            i = i + 1;
        }
        assert(validators@.take(i as int) =~= validators@);
        ValidatorSetSnapshot { set_id, validators, total_stake: total, block_number: 0, root_hash: Hash32::empty() }
    }

    /// Sets the root: the digest of the set id, each validator's entry and
    /// the total stake.
    pub fn compute_root(&mut self)
        ensures
            final(self).root_hash.0@ == sha256_spec(
                le_bytes(old(self).set_id as nat, 8) + snapshot_entries(old(self).validators@) + le_bytes(
                    old(self).total_stake as nat,
                    16,
                ),
            ),
            final(self).set_id == old(self).set_id && final(self).validators == old(self).validators,
            final(self).total_stake == old(self).total_stake && final(self).block_number == old(self).block_number,
    {
        let mut data: Vec<u8> = Vec::new();
        push_le(&mut data, self.set_id as u128, 8);
        let ghost prefix = data@;
        let mut i: usize = 0;
        while i < self.validators.len()
            invariant
                i <= self.validators@.len(),
                data@ == prefix + snapshot_entries(self.validators@.take(i as int)),
            decreases self.validators@.len() - i,
        {
            proof {
                assert(self.validators@.take(i + 1).drop_last() =~= self.validators@.take(i as int));
            }
            push_all(&mut data, self.validators[i].account_id.0.as_slice());
            push_le(&mut data, self.validators[i].stake, 16);
            push_le(&mut data, self.validators[i].commission as u128, 1);
            i = i + 1;
            assert(data@ =~= prefix + snapshot_entries(self.validators@.take(i as int)));
        }
        assert(self.validators@.take(i as int) =~= self.validators@);
        push_le(&mut data, self.total_stake, 16);
        self.root_hash = Hash32(sha256(data.as_slice()));
    }
}

#[derive(Clone, Debug)]
pub struct DiscoveryRequest {
    pub requester: Address,
    pub request_type: DiscoveryRequestType,
    pub max_results: u32,
    pub filter: Option<DiscoveryFilter>,
}

#[derive(Clone, Copy, Debug, PartialEq, Eq, Structural)]
pub enum DiscoveryRequestType {
    All,
    Active,
    ByStake,
    ByRegion,
    ByPerformance,
}

#[derive(Clone, Debug)]
pub struct DiscoveryFilter {
    pub min_stake: Option<u128>,
    pub max_commission: Option<u8>,
    pub region: Option<String>,
    pub active_only: bool,
}

#[derive(Clone, Debug)]
pub struct DiscoveryResponse {
    pub request_id: Hash32,
    pub validators: Vec<ValidatorInfo>,
    pub total_found: u32,
    pub block_number: u64,
}

impl DiscoveryResponse {
    /// A response that counts its validators (the count cut to 32 bits).
    pub fn new(request_id: Hash32, validators: Vec<ValidatorInfo>, block_number: u64) -> (r: Self)
        ensures
            r.request_id == request_id && r.validators == validators,
            r.total_found == validators@.len() as u32 && r.block_number == block_number,
    {
        let total_found = validators.len() as u32;
        DiscoveryResponse { request_id, validators, total_found, block_number }
    }
}

#[derive(Clone, Debug)]
pub struct PeerInfo {
    pub peer_id: String,
    pub addresses: Vec<String>,
    pub connected: bool,
    pub latency_ms: Option<u32>,
    pub validator: Option<Address>,
    pub version: String,
}

#[derive(Clone, Debug)]
pub struct NetworkTopology {
    pub connected_peers: u32,
    pub validator_peers: u32,
    pub discovered_at: u64,
    pub region: String,
}

impl NetworkTopology {
    pub fn new(region: String) -> (r: Self)
        ensures
            r.connected_peers == 0 && r.validator_peers == 0 && r.discovered_at == 0 && r.region == region,
    {
        NetworkTopology { connected_peers: 0, validator_peers: 0, discovered_at: 0, region }
    }
}

/// `i` is the first position of the validator with account `a`.
pub open spec fn first_entry_at(s: Seq<ValidatorInfo>, a: Address, i: int) -> bool {
    0 <= i < s.len() && s[i].account_id.0@ == a.0@ && forall|j: int| 0 <= j < i ==> s[j].account_id.0@ != a.0@
}

/// Whether some entry has account `a`.
pub open spec fn registered(s: Seq<ValidatorInfo>, a: Address) -> bool {
    exists|i: int| 0 <= i < s.len() && s[i].account_id.0@ == a.0@
}

/// The active entries, in order.
pub open spec fn active_entries(s: Seq<ValidatorInfo>) -> Seq<ValidatorInfo>
    decreases s.len(),
{
    if s.len() == 0 {
        s
    } else {
        active_entries(s.drop_last()) + if s.last().active {
            seq![s.last()]
        } else {
            Seq::empty()
        }
    }
}

/// `r` is `s` reordered by `p`, by decreasing stake, equal stakes keeping
/// their order.
pub open spec fn sorted_by_stake(r: Seq<ValidatorInfo>, s: Seq<ValidatorInfo>, p: Seq<int>) -> bool {
    &&& r.len() == s.len()
    &&& is_permutation(p, s.len() as int)
    &&& forall|i: int| 0 <= i < r.len() ==> #[trigger] r[i] == s[p[i]]
    &&& forall|a: int, b: int| 0 <= a < b < r.len() ==> (#[trigger] r[a]).stake >= (#[trigger] r[b]).stake
    &&& forall|a: int, b: int| 0 <= a < b < r.len() && (#[trigger] r[a]).stake == (#[trigger] r[b]).stake ==> p[a] < p[b]
}

/// The validators known to the node, in registration order.
#[derive(Clone, Debug)]
pub struct ValidatorRegistry {
    pub entries: Vec<ValidatorInfo>,
    pub next_set_id: u64,
}

impl ValidatorRegistry {
    pub fn new() -> (r: Self)
        ensures
            r.entries@.len() == 0 && r.next_set_id == 1,
    {
        ValidatorRegistry { entries: Vec::new(), next_set_id: 1 }
    }

    fn position(&self, account_id: &Address) -> (r: Option<usize>)
        ensures
            r is None <==> !registered(self.entries@, *account_id),
            r matches Some(i) ==> first_entry_at(self.entries@, *account_id, i as int),
    {
        let mut i: usize = 0;
        while i < self.entries.len()
            invariant
                i <= self.entries@.len(),
                forall|j: int| 0 <= j < i ==> self.entries@[j].account_id.0@ != account_id.0@,
            decreases self.entries@.len() - i,
        {
            if bytes32_eq(&self.entries[i].account_id.0, &account_id.0) {
                return Some(i);
            }
            i = i + 1;
        }
        None
    }

    /// Adds `validator` unless its account is registered.
    pub fn register(&mut self, validator: ValidatorInfo)
        ensures
            registered(old(self).entries@, validator.account_id) ==> final(self).entries@ == old(self).entries@,
            !registered(old(self).entries@, validator.account_id) ==> final(self).entries@ == old(self).entries@.push(validator),
            final(self).next_set_id == old(self).next_set_id,
    {
        if self.position(&validator.account_id).is_none() {
            self.entries.push(validator);
        }
    }

    /// Removes and returns the entry of `account_id`, if any.
    pub fn deregister(&mut self, account_id: &Address) -> (r: Option<ValidatorInfo>)
        ensures
            r is None <==> !registered(old(self).entries@, *account_id),
            r is None ==> final(self).entries@ == old(self).entries@,
            r matches Some(v) ==> exists|i: int|
                first_entry_at(old(self).entries@, *account_id, i) && v == old(self).entries@[i] && final(self).entries@ == old(self).entries@.remove(i),
            final(self).next_set_id == old(self).next_set_id,
    {
        match self.position(account_id) {
            Some(i) => Some(self.entries.remove(i)),
            None => None,
        }
    }

    pub fn get(&self, account_id: &Address) -> (r: Option<&ValidatorInfo>)
        ensures
            r is None <==> !registered(self.entries@, *account_id),
            r matches Some(v) ==> exists|i: int| first_entry_at(self.entries@, *account_id, i) && *v == self.entries@[i],
    {
        match self.position(account_id) {
            Some(i) => Some(&self.entries[i]),
            None => None,
        }
    }

    pub fn get_mut(&mut self, account_id: &Address) -> (r: Option<&mut ValidatorInfo>)
        ensures
            r is None <==> !registered(old(self).entries@, *account_id),
            r is None ==> final(self).entries@ == old(self).entries@,
            r matches Some(v) ==> exists|i: int|
                first_entry_at(old(self).entries@, *account_id, i) && *v == old(self).entries@[i] && final(self).entries@ == old(self).entries@.update(i, *final(v)),
            final(self).next_set_id == old(self).next_set_id,
    {
        match self.position(account_id) {
            Some(i) => Some(&mut self.entries[i]),
            None => None,
        }
    }

    /// The active entries, in order.
    pub fn active_validators(&self) -> (r: Vec<&ValidatorInfo>)
        ensures
            r@.map_values(|v: &ValidatorInfo| *v) == active_entries(self.entries@),
    {
        let mut out: Vec<&ValidatorInfo> = Vec::new();
        let mut i: usize = 0;
        while i < self.entries.len()
            invariant
                i <= self.entries@.len(),
                out@.map_values(|v: &ValidatorInfo| *v) == active_entries(self.entries@.take(i as int)),
            decreases self.entries@.len() - i,
        {
            proof {
                assert(self.entries@.take(i + 1).drop_last() =~= self.entries@.take(i as int));
            }
            let ghost before = out@;
            if self.entries[i].active {
                out.push(&self.entries[i]);
            }
            assert(out@.map_values(|v: &ValidatorInfo| *v) =~= active_entries(self.entries@.take(i + 1)));
            i = i + 1;
        }
        assert(self.entries@.take(i as int) =~= self.entries@);
        out
    }

    /// Orders the entries by decreasing stake; equal stakes keep their order.
    pub fn sort_by_stake(&mut self)
        ensures
            exists|p: Seq<int>| sorted_by_stake(final(self).entries@, old(self).entries@, p),
            final(self).next_set_id == old(self).next_set_id,
    {
        let mut src: Vec<ValidatorInfo> = Vec::new();
        core::mem::swap(&mut src, &mut self.entries);
        let ghost orig = src@;
        let n = src.len();
        let mut out: Vec<ValidatorInfo> = Vec::new();
        let ghost mut p: Seq<int> = Seq::empty();
        let mut k: usize = 0;
        while k < n
            invariant
                n == orig.len(),
                k <= n,
                src@ == orig.skip(k as int),
                out@.len() == k,
                p.len() == k,
                forall|a: int| 0 <= a < k ==> 0 <= #[trigger] p[a] < k,
                forall|a: int, b: int| 0 <= a < b < k ==> #[trigger] p[a] != #[trigger] p[b],
                forall|t: int| 0 <= t < k ==> #[trigger] out@[t] == orig[p[t]],
                forall|a: int, b: int| 0 <= a < b < k ==> (#[trigger] out@[a]).stake >= (#[trigger] out@[b]).stake,
                forall|a: int, b: int|
                    0 <= a < b < k && (#[trigger] out@[a]).stake == (#[trigger] out@[b]).stake ==> p[a] < p[b],
            decreases n - k,
        {
            let item = src.remove(0);
            assert(item == orig[k as int]);
            assert(src@ =~= orig.skip(k + 1));
            let mut pos: usize = 0;
            while pos < out.len() && out[pos].stake >= item.stake
                invariant
                    pos <= out@.len(),
                    forall|t: int| 0 <= t < pos ==> (#[trigger] out@[t]).stake >= item.stake,
                decreases out@.len() - pos,
            {
                pos = pos + 1;
            }
            let ghost before = out@;
            let ghost pb = p;
            proof {
                assert forall|t: int| pos <= t < before.len() implies (#[trigger] before[t]).stake < item.stake by {
                    if t > pos {
                        assert(before[pos as int].stake >= before[t].stake);
                    }
                }
            }
            out.insert(pos, item);
            proof {
                p = pb.insert(pos as int, k as int);
                assert(out@ == before.insert(pos as int, item));
                assert forall|t: int| 0 <= t < k + 1 implies #[trigger] out@[t] == orig[p[t]] by {
                    if t < pos {
                        assert(out@[t] == before[t] && p[t] == pb[t]);
                    } else if t > pos {
                        assert(out@[t] == before[t - 1] && p[t] == pb[t - 1]);
                    }
                }
                assert forall|a: int| 0 <= a < k + 1 implies 0 <= #[trigger] p[a] < k + 1 by {
                    if a < pos {
                        assert(p[a] == pb[a]);
                    } else if a > pos {
                        assert(p[a] == pb[a - 1]);
                    }
                }
                assert forall|a: int, b: int| 0 <= a < b < k + 1 implies #[trigger] p[a] != #[trigger] p[b] by {
                    if a < pos && b < pos {
                        assert(p[a] == pb[a] && p[b] == pb[b]);
                    } else if a < pos && b == pos {
                        assert(p[a] == pb[a]);
                    } else if a < pos && b > pos {
                        assert(p[a] == pb[a] && p[b] == pb[b - 1]);
                    } else if a == pos {
                        assert(p[b] == pb[b - 1]);
                    } else {
                        assert(p[a] == pb[a - 1] && p[b] == pb[b - 1]);
                    }
                }
                assert forall|a: int, b: int| 0 <= a < b < k + 1 implies (#[trigger] out@[a]).stake
                    >= (#[trigger] out@[b]).stake by {
                    if a < pos && b < pos {
                        assert(out@[a] == before[a] && out@[b] == before[b]);
                    } else if a < pos && b == pos {
                        assert(out@[a] == before[a]);
                    } else if a < pos && b > pos {
                        assert(out@[a] == before[a] && out@[b] == before[b - 1]);
                    } else if a == pos {
                        assert(out@[b] == before[b - 1]);
                    } else {
                        assert(out@[a] == before[a - 1] && out@[b] == before[b - 1]);
                    }
                }
                assert forall|a: int, b: int|
                    0 <= a < b < k + 1 && (#[trigger] out@[a]).stake == (#[trigger] out@[b]).stake implies p[a] < p[b] by {
                    if a < pos && b < pos {
                        assert(out@[a] == before[a] && out@[b] == before[b]);
                        assert(p[a] == pb[a] && p[b] == pb[b]);
                    } else if a < pos && b == pos {
                        assert(p[a] == pb[a]);
                    } else if a < pos && b > pos {
                        assert(out@[a] == before[a] && out@[b] == before[b - 1]);
                        assert(p[a] == pb[a] && p[b] == pb[b - 1]);
                    } else if a == pos {
                        assert(out@[b] == before[b - 1]);
                    } else {
                        assert(out@[a] == before[a - 1] && out@[b] == before[b - 1]);
                        assert(p[a] == pb[a - 1] && p[b] == pb[b - 1]);
                    }
                }
            }
            k = k + 1;
        }
        self.entries = out;
        assert(sorted_by_stake(self.entries@, orig, p));
    }
}

impl Default for ValidatorRegistry {
    fn default() -> (r: Self)
        ensures
            r.entries@.len() == 0 && r.next_set_id == 1,
    {
        ValidatorRegistry::new()
    }
}

#[derive(Clone, Debug)]
pub struct ValidatorSessionInfo {
    pub session_id: u64,
    pub validators: Vec<Address>,
    pub block_number: u64,
    pub root_hash: Hash32,
}

impl ValidatorSessionInfo {
    pub fn new(session_id: u64, validators: Vec<Address>, block_number: u64) -> (r: Self)
        ensures
            r.session_id == session_id && r.validators == validators && r.block_number == block_number,
            r.root_hash == empty_hash32(),
    {
        ValidatorSessionInfo { session_id, validators, block_number, root_hash: Hash32::empty() }
    }

    pub fn contains(&self, account_id: &Address) -> (r: bool)
        ensures
            r == addr_in(self.validators@, *account_id),
    {
        crate::primitives::api::position_of_address(&self.validators, account_id).is_some()
    }
}

#[derive(Clone, Copy, Debug)]
pub struct ValidatorPerformance {
    pub account_id: Address,
    pub blocks_proposed: u64,
    pub blocks_authored: u64,
    pub votes_cast: u64,
    pub missed_blocks: u64,
    pub uptime_percentage: u32,
    pub last_evaluated: u64,
}

impl ValidatorPerformance {
    pub fn new(account_id: Address) -> (r: Self)
        ensures
            r.account_id == account_id && r.blocks_proposed == 0 && r.blocks_authored == 0,
            r.votes_cast == 0 && r.missed_blocks == 0 && r.uptime_percentage == 100 && r.last_evaluated == 0,
    {
        ValidatorPerformance {
            account_id,
            blocks_proposed: 0,
            blocks_authored: 0,
            votes_cast: 0,
            missed_blocks: 0,
            uptime_percentage: 100,
            last_evaluated: 0,
        }
    }

    pub fn record_block_proposed(&mut self)
        requires
            old(self).blocks_proposed < u64::MAX,
        ensures
            *final(self) == (ValidatorPerformance {
                blocks_proposed: (old(self).blocks_proposed + 1) as u64,
                ..*old(self)
            }),
    {
        self.blocks_proposed = self.blocks_proposed + 1;
    }

    pub fn record_block_authored(&mut self)
        requires
            old(self).blocks_authored < u64::MAX,
        ensures
            *final(self) == (ValidatorPerformance {
                blocks_authored: (old(self).blocks_authored + 1) as u64,
                ..*old(self)
            }),
    {
        self.blocks_authored = self.blocks_authored + 1;
    }

    pub fn record_vote(&mut self)
        requires
            old(self).votes_cast < u64::MAX,
        ensures
            *final(self) == (ValidatorPerformance { votes_cast: (old(self).votes_cast + 1) as u64, ..*old(self) }),
    {
        self.votes_cast = self.votes_cast + 1;
    }

    pub fn record_missed_block(&mut self)
        requires
            old(self).missed_blocks < u64::MAX,
        ensures
            *final(self) == (ValidatorPerformance { missed_blocks: (old(self).missed_blocks + 1) as u64, ..*old(self) }),
    {
        self.missed_blocks = self.missed_blocks + 1;
    }

    /// Sets the uptime to the share of proposed blocks among proposed and
    /// missed ones, in percent, when there are any.
    pub fn calculate_uptime(&mut self)
        requires
            old(self).blocks_proposed + old(self).missed_blocks <= u64::MAX,
            old(self).blocks_proposed * 100 <= u64::MAX,
        ensures
            ({
                let total = old(self).blocks_proposed + old(self).missed_blocks;
                *final(self) == if total > 0 {
                    ValidatorPerformance {
                        uptime_percentage: ((old(self).blocks_proposed * 100) / total) as u32,
                        ..*old(self)
                    }
                } else {
                    *old(self)
                }
            }),
    {
        let total = self.blocks_proposed + self.missed_blocks;
        if total > 0 {
            self.uptime_percentage = ((self.blocks_proposed * 100) / total) as u32;
        }
    }
}

#[derive(Clone, Debug)]
pub struct ValidatorDiscoveryConfig {
    pub discovery_enabled: bool,
    pub discovery_interval_blocks: u32,
    pub heartbeat_timeout_blocks: u64,
    pub max_discovered_validators: u32,
    pub min_stake_threshold: u128,
    pub region_preference: Option<String>,
}

impl Default for ValidatorDiscoveryConfig {
    fn default() -> (r: Self)
        ensures
            r.discovery_enabled && r.discovery_interval_blocks == 100 && r.heartbeat_timeout_blocks == 600,
            r.max_discovered_validators == 100 && r.min_stake_threshold == 0 && r.region_preference is None,
    {
        ValidatorDiscoveryConfig {
            discovery_enabled: true,
            discovery_interval_blocks: 100,
            heartbeat_timeout_blocks: 600,
            max_discovered_validators: 100,
            min_stake_threshold: 0,
            region_preference: None,
        }
    }
}

#[derive(Clone, Debug)]
pub struct DiscoveryAnnounce {
    pub account_id: Address,
    pub peer_id: String,
    pub listen_addresses: Vec<String>,
    pub endpoint: Option<ValidatorEndpoint>,
    pub signature: Vec<u8>,
}

impl DiscoveryAnnounce {
    pub fn new(account_id: Address, peer_id: String, listen_addresses: Vec<String>) -> (r: Self)
        ensures
            r.account_id == account_id && r.peer_id == peer_id && r.listen_addresses == listen_addresses,
            r.endpoint is None && r.signature@.len() == 0,
    {
        DiscoveryAnnounce { account_id, peer_id, listen_addresses, endpoint: None, signature: Vec::new() }
    }
}

#[derive(Clone, Debug)]
pub struct AuthoritySetTransition {
    pub old_set_id: u64,
    pub new_set_id: u64,
    pub added: Vec<Address>,
    pub removed: Vec<Address>,
    pub block_number: u64,
}

} // verus!
