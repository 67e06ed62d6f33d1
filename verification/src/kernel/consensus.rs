//! Round-based BFT consensus: validator sets, proposals, prevotes and
//! precommits, quorum detection, finality signatures and fork choice.

use vstd::prelude::*;
use crate::kernel::{Address, Hash32, KernelError};
use crate::table::{Table, TableKey, distinct_keys, entries_map, lemma_entry_in_map, lemma_map_len, lemma_push};
use crate::bytes::{bytes_lt, seq_lt};

verus! {

pub const BYZANTINE_THRESHOLD: u32 = 3;

pub const DEFAULT_ROUND_TIMEOUT_MS: u64 = 5000;

pub const DEFAULT_PROPOSE_TIMEOUT_MS: u64 = 3000;

/// The phase of a consensus round.
#[derive(Clone, Copy, Debug, PartialEq, Eq, Structural)]
pub enum RoundState {
    Propose,
    Prevote,
    Precommit,
    Finalized,
}

/// The position of a phase in the order Propose, Prevote, Precommit, Finalized.
pub open spec fn round_state_rank(s: RoundState) -> int {
    match s {
        RoundState::Propose => 0,
        RoundState::Prevote => 1,
        RoundState::Precommit => 2,
        RoundState::Finalized => 3,
    }
}

impl RoundState {
    /// The following phase; Finalized stays Finalized.
    pub fn next(&self) -> (r: Self)
        ensures
            round_state_rank(r) == if round_state_rank(*self) < 3 {
                round_state_rank(*self) + 1
            } else {
                3
            },
    {
        match self {
            RoundState::Propose => RoundState::Prevote,
            RoundState::Prevote => RoundState::Precommit,
            RoundState::Precommit => RoundState::Finalized,
            RoundState::Finalized => RoundState::Finalized,
        }
    }
}

/// Phases only move forward, and Finalized is reached within three steps
/// from any phase and then kept.
pub proof fn lemma_round_state_progress(s: RoundState)
    ensures
        round_state_rank(s) <= 3,
        forall|t: RoundState| round_state_rank(t) == round_state_rank(s) ==> t == s,
{
}

/// A validator: its address, stake, voting weight and whether it is active.
#[derive(Clone, Copy, Debug)]
pub struct ValidatorInfo {
    pub address: Address,
    pub stake: u128,
    pub weight: u64,
    pub is_active: bool,
}

impl ValidatorInfo {
    pub fn new(address: Address, stake: u128) -> (r: Self)
        ensures
            r.address == address,
            r.stake == stake,
            r.weight == 1,
            r.is_active,
    {
        ValidatorInfo { address, stake, weight: 1, is_active: true }
    }
}

/// The position of the first validator with address `a`, if any.
pub open spec fn first_with_address(vs: Seq<ValidatorInfo>, a: Seq<u8>) -> Option<int> {
    if exists|i: int| 0 <= i < vs.len() && vs[i].address.0@ == a {
        Some(
            choose|i: int|
                0 <= i < vs.len() && vs[i].address.0@ == a && forall|j: int|
                    0 <= j < i ==> vs[j].address.0@ != a,
        )
    } else {
        None
    }
}

/// A position whose validator has address `a` and is the first such is the
/// one `first_with_address` names.
pub proof fn lemma_first_with_address(vs: Seq<ValidatorInfo>, a: Seq<u8>, i: int)
    requires
        0 <= i < vs.len(),
        vs[i].address.0@ == a,
        forall|j: int| 0 <= j < i ==> vs[j].address.0@ != a,
    ensures
        first_with_address(vs, a) == Some(i),
{
    let c = choose|c: int|
        0 <= c < vs.len() && vs[c].address.0@ == a && forall|j: int|
            0 <= j < c ==> vs[j].address.0@ != a;
    assert(0 <= i < vs.len() && vs[i].address.0@ == a && forall|j: int|
        0 <= j < i ==> vs[j].address.0@ != a);
    if c < i {
        assert(vs[c].address.0@ != a);
    }
    if i < c {
        assert(vs[i].address.0@ != a);
    }
}

/// Finds the position of the first validator with address `a`.
fn position_of(vs: &Vec<ValidatorInfo>, a: &Address) -> (r: Option<usize>)
    ensures
        r matches Some(i) ==> first_with_address(vs@, a.0@) == Some(i as int) && i < vs@.len(),
        r is None ==> first_with_address(vs@, a.0@) is None,
{
    let mut i: usize = 0;
    while i < vs.len()
        invariant
            i <= vs@.len(),
            forall|j: int| 0 <= j < i ==> vs@[j].address.0@ != a.0@,
        decreases vs@.len() - i,
    {
        if vs[i].address == *a {
            proof {
                lemma_first_with_address(vs@, a.0@, i as int);
            }
            return Some(i);
        }
        i = i + 1;
    }
    None
}

/// The sum of the stakes of a sequence of validators.
pub open spec fn stake_sum(vs: Seq<ValidatorInfo>) -> int
    decreases vs.len(),
{
    if vs.len() == 0 {
        0
    } else {
        stake_sum(vs.drop_last()) + vs.last().stake
    }
}

/// The sum of the weights of a sequence of validators.
pub open spec fn weight_sum(vs: Seq<ValidatorInfo>) -> int
    decreases vs.len(),
{
    if vs.len() == 0 {
        0
    } else {
        weight_sum(vs.drop_last()) + vs.last().weight
    }
}

/// Sums are monotone in the prefix.
pub proof fn lemma_sums_prefix(vs: Seq<ValidatorInfo>, i: int)
    requires
        0 <= i <= vs.len(),
    ensures
        0 <= stake_sum(vs.subrange(0, i)) <= stake_sum(vs),
        0 <= weight_sum(vs.subrange(0, i)) <= weight_sum(vs),
    decreases vs.len() - i,
{
    lemma_sums_nonneg(vs.subrange(0, i));
    if i < vs.len() {
        lemma_sums_prefix(vs, i + 1);
        assert(vs.subrange(0, i + 1).drop_last() =~= vs.subrange(0, i));
    } else {
        assert(vs.subrange(0, i) =~= vs);
        lemma_sums_nonneg(vs);
    }
}

proof fn lemma_sums_nonneg(vs: Seq<ValidatorInfo>)
    ensures
        stake_sum(vs) >= 0,
        weight_sum(vs) >= 0,
    decreases vs.len(),
{
    if vs.len() > 0 {
        lemma_sums_nonneg(vs.drop_last());
    }
}

/// Whether validator `a` is ordered before `b` by decreasing stake.
pub open spec fn stake_desc_sorted(vs: Seq<ValidatorInfo>) -> bool {
    forall|i: int, j: int| 0 <= i < j < vs.len() ==> (#[trigger] vs[i]).stake >= (#[trigger] vs[j]).stake
}

/// An ordered set of validators and an identifier of the set.
pub struct ValidatorSet {
    validators: Vec<ValidatorInfo>,
    set_id: u64,
}

impl ValidatorSet {
    /// The validators in their order.
    pub closed spec fn view(&self) -> Seq<ValidatorInfo> {
        self.validators@
    }

    /// The identifier of the set.
    pub closed spec fn id_spec(&self) -> u64 {
        self.set_id
    }

    pub fn new() -> (r: Self)
        ensures
            r@ == Seq::<ValidatorInfo>::empty(),
            r.id_spec() == 0,
    {
        ValidatorSet { validators: Vec::new(), set_id: 0 }
    }

    pub fn with_validators(validators: Vec<ValidatorInfo>) -> (r: Self)
        ensures
            r@ == validators@,
            r.id_spec() == 0,
    {
        ValidatorSet { validators, set_id: 0 }
    }

    /// Appends a validator (an address may occur more than once).
    pub fn add(&mut self, validator: ValidatorInfo)
        ensures
            final(self)@ == old(self)@.push(validator),
            final(self).id_spec() == old(self).id_spec(),
    {
        self.validators.push(validator);
    }

    /// Removes the first validator with `address` and returns it.
    pub fn remove(&mut self, address: &Address) -> (r: Option<ValidatorInfo>)
        ensures
            final(self).id_spec() == old(self).id_spec(),
            match first_with_address(old(self)@, address.0@) {
                Some(i) => r == Some(old(self)@[i]) && final(self)@ == old(self)@.remove(i),
                None => r is None && final(self)@ == old(self)@,
            },
    {
        match position_of(&self.validators, address) {
            Some(pos) => Some(self.validators.remove(pos)),
            None => None,
        }
    }

    /// The first validator with `address`.
    pub fn get(&self, address: &Address) -> (r: Option<&ValidatorInfo>)
        ensures
            match first_with_address(self@, address.0@) {
                Some(i) => r == Some(&self@[i]),
                None => r is None,
            },
    {
        match position_of(&self.validators, address) {
            Some(pos) => Some(&self.validators[pos]),
            None => None,
        }
    }

    /// A mutable reference to the first validator with `address`.
    pub fn get_mut(&mut self, address: &Address) -> (r: Option<&mut ValidatorInfo>)
        ensures
            final(self).id_spec() == old(self).id_spec(),
            match first_with_address(old(self)@, address.0@) {
                Some(i) => r matches Some(v) && *v == old(self)@[i] && final(self)@ == old(self)@.update(
                    i,
                    *final(v),
                ),
                None => r is None && final(self)@ == old(self)@,
            },
    {
        match position_of(&self.validators, address) {
            Some(pos) => Some(&mut self.validators[pos]),
            None => None,
        }
    }

    pub fn len(&self) -> (r: usize)
        ensures
            r == self@.len(),
    {
        self.validators.len()
    }

    pub fn is_empty(&self) -> (r: bool)
        ensures
            r == (self@.len() == 0),
    {
        self.validators.is_empty()
    }

    /// The sum of all stakes.
    pub fn total_stake(&self) -> (r: u128)
        requires
            stake_sum(self@) <= u128::MAX,
        ensures
            r == stake_sum(self@),
    {
        let mut total: u128 = 0;
        let mut i: usize = 0;
        while i < self.validators.len()
            invariant
                i <= self@.len(),
                self@ == self.validators@,
                stake_sum(self@) <= u128::MAX,
                total == stake_sum(self@.subrange(0, i as int)),
            decreases self@.len() - i,
        {
            proof {
                lemma_sums_prefix(self@, i + 1);
                assert(self@.subrange(0, i + 1).drop_last() =~= self@.subrange(0, i as int));
            }
            total = total + self.validators[i].stake;
            i = i + 1;
        }
        assert(self@.subrange(0, i as int) =~= self@);
        total
    }

    /// The sum of all weights.
    pub fn total_weight(&self) -> (r: u64)
        requires
            weight_sum(self@) <= u64::MAX,
        ensures
            r == weight_sum(self@),
    {
        let mut total: u64 = 0;
        let mut i: usize = 0;
        while i < self.validators.len()
            invariant
                i <= self@.len(),
                self@ == self.validators@,
                weight_sum(self@) <= u64::MAX,
                total == weight_sum(self@.subrange(0, i as int)),
            decreases self@.len() - i,
        {
            proof {
                lemma_sums_prefix(self@, i + 1);
                assert(self@.subrange(0, i + 1).drop_last() =~= self@.subrange(0, i as int));
            }
            total = total + self.validators[i].weight;
            i = i + 1;
        }
        assert(self@.subrange(0, i as int) =~= self@);
        total
    }

    pub fn set_id(&self) -> (r: u64)
        ensures
            r == self.id_spec(),
    {
        self.set_id
    }

    pub fn increment_set_id(&mut self)
        requires
            old(self).id_spec() < u64::MAX,
        ensures
            final(self).id_spec() == old(self).id_spec() + 1,
            final(self)@ == old(self)@,
    {
        self.set_id = self.set_id + 1;
    }

    /// The proposer of a round: validators take turns by `height + round`
    /// modulo the set size; none for an empty set.
    pub fn get_proposer(&self, height: u64, round: u64) -> (r: Option<Address>)
        requires
            height + round <= u64::MAX,
        ensures
            self@.len() == 0 ==> r is None,
            self@.len() > 0 ==> r == Some(self@[(((height + round) as u64) as usize) as int % self@.len() as int].address),
    {
        if self.validators.is_empty() {
            return None;
        }
        let proposer_index = ((height + round) as usize) % self.validators.len();
        Some(self.validators[proposer_index].address)
    }

    /// Votes needed for a quorum: more than two thirds of the validators.
    pub fn quorum_size(&self) -> (r: u32)
        requires
            self@.len() * 2 <= usize::MAX,
        ensures
            r == ((self@.len() * 2 / 3 + 1) as u32),
    {
        ((self.validators.len() * 2) / 3 + 1) as u32
    }

    /// Orders validators by decreasing stake; equal stakes keep their order.
    pub fn sort_by_stake(&mut self)
        ensures
            final(self).id_spec() == old(self).id_spec(),
            stake_desc_sorted(final(self)@),
            final(self)@.to_multiset() == old(self)@.to_multiset(),
            final(self)@.len() == old(self)@.len(),
    {
        let mut out: Vec<ValidatorInfo> = Vec::new();
        let mut i: usize = 0;
        let ghost src = self.validators@;
        assert(out@ =~= src.subrange(0, 0));
        while i < self.validators.len()
            invariant
                self.validators@ == src,
                i <= src.len(),
                stake_desc_sorted(out@),
                out@.to_multiset() == src.subrange(0, i as int).to_multiset(),
                out@.len() == i,
            decreases src.len() - i,
        {
            let v = self.validators[i];
            let mut pos: usize = 0;
            while pos < out.len() && out[pos].stake >= v.stake
                invariant
                    pos <= out@.len(),
                    forall|j: int| 0 <= j < pos ==> out@[j].stake >= v.stake,
                decreases out@.len() - pos,
            {
                pos = pos + 1;
            }
            let ghost before = out@;
            proof {
                assert forall|j: int| pos <= j < before.len() implies v.stake > (#[trigger] before[j]).stake by {
                    if pos < before.len() {
                        assert(before[pos as int].stake < v.stake);
                        if j > pos {
                            assert(before[pos as int].stake >= before[j].stake);
                        }
                    }
                }
            }
            out.insert(pos, v);
            proof {
                assert(out@ == before.insert(pos as int, v));
                assert forall|a: int, b: int| 0 <= a < b < out@.len() implies (#[trigger] out@[a]).stake >= (#[trigger] out@[b]).stake by {
                    if a < pos && b == pos {
                    } else if a < pos && b > pos {
                        assert(out@[b] == before[b - 1]);
                    } else if a == pos {
                        assert(out@[b] == before[b - 1]);
                    } else if a < pos {
                    } else {
                        assert(out@[a] == before[a - 1]);
                        assert(out@[b] == before[b - 1]);
                    }
                }
                assert(src.subrange(0, i + 1) =~= src.subrange(0, i as int).push(v));
                vstd::seq_lib::to_multiset_insert(before, pos as int, v);
                vstd::seq_lib::to_multiset_build(src.subrange(0, i as int), v);
                assert(out@.to_multiset() == before.to_multiset().insert(v));
            }
            i = i + 1;
        }
        assert(src.subrange(0, i as int) =~= src);
        self.validators = out;
    }

    /// The validators in their order.
    pub fn iter(&self) -> (r: std::slice::Iter<'_, ValidatorInfo>)
        ensures
            vstd::std_specs::slice::into_iter_elts(r) == self@,
    {
        let sl = self.validators.as_slice();
        let r = sl.iter();
        proof {
            broadcast use vstd::std_specs::slice::axiom_spec_slice_iter;
            assert(sl@.as_ref().unref() =~= self@);
        }
        r
    }
}

impl Default for ValidatorSet {
    fn default() -> (r: Self)
        ensures
            r@ == Seq::<ValidatorInfo>::empty(),
            r.id_spec() == 0,
    {
        ValidatorSet::new()
    }
}

} // verus!

verus! {

/// A block proposal for a height and round.
#[derive(Clone, Copy, Debug)]
pub struct Proposal {
    pub height: u64,
    pub round: u64,
    pub block_hash: Hash32,
    pub proposer: Address,
    pub timestamp: u64,
    pub valid_round: Option<u64>,
}

impl Proposal {
    pub fn new(height: u64, round: u64, block_hash: Hash32, proposer: Address) -> (r: Self)
        ensures
            r.height == height,
            r.round == round,
            r.block_hash == block_hash,
            r.proposer == proposer,
            r.timestamp == 0,
            r.valid_round is None,
    {
        Proposal { height, round, block_hash, proposer, timestamp: 0, valid_round: None }
    }
}

/// A prevote; no block hash means a vote for nil.
#[derive(Clone, Copy, Debug)]
pub struct Prevote {
    pub height: u64,
    pub round: u64,
    pub block_hash: Option<Hash32>,
    pub voter: Address,
    pub timestamp: u64,
}

impl Prevote {
    pub fn new(height: u64, round: u64, block_hash: Option<Hash32>, voter: Address) -> (r: Self)
        ensures
            r.height == height,
            r.round == round,
            r.block_hash == block_hash,
            r.voter == voter,
            r.timestamp == 0,
    {
        Prevote { height, round, block_hash, voter, timestamp: 0 }
    }

    pub fn is_nil(&self) -> (r: bool)
        ensures
            r == self.block_hash is None,
    {
        self.block_hash.is_none()
    }
}

/// A precommit; no block hash means a vote for nil.
#[derive(Clone, Copy, Debug)]
pub struct Precommit {
    pub height: u64,
    pub round: u64,
    pub block_hash: Option<Hash32>,
    pub voter: Address,
    pub timestamp: u64,
}

impl Precommit {
    pub fn new(height: u64, round: u64, block_hash: Option<Hash32>, voter: Address) -> (r: Self)
        ensures
            r.height == height,
            r.round == round,
            r.block_hash == block_hash,
            r.voter == voter,
            r.timestamp == 0,
    {
        Precommit { height, round, block_hash, voter, timestamp: 0 }
    }

    pub fn is_nil(&self) -> (r: bool)
        ensures
            r == self.block_hash is None,
    {
        self.block_hash.is_none()
    }
}

/// A signed vote as sent over the network.
#[derive(Clone, Debug)]
pub struct VoteMessage {
    pub vote_type: VoteType,
    pub height: u64,
    pub round: u64,
    pub block_hash: Option<Hash32>,
    pub sender: Address,
    pub signature: Vec<u8>,
    pub timestamp: u64,
}

/// The kind of a vote message.
#[derive(Clone, Copy, Debug, PartialEq, Eq, Structural)]
pub enum VoteType {
    Prevote,
    Precommit,
}

impl VoteMessage {
    pub fn new_prevote(height: u64, round: u64, block_hash: Option<Hash32>, sender: Address) -> (r: Self)
        ensures
            r.vote_type == VoteType::Prevote,
            r.height == height,
            r.round == round,
            r.block_hash == block_hash,
            r.sender == sender,
            r.signature@.len() == 0,
            r.timestamp == 0,
    {
        VoteMessage {
            vote_type: VoteType::Prevote,
            height,
            round,
            block_hash,
            sender,
            signature: Vec::new(),
            timestamp: 0,
        }
    }

    pub fn new_precommit(height: u64, round: u64, block_hash: Option<Hash32>, sender: Address) -> (r: Self)
        ensures
            r.vote_type == VoteType::Precommit,
            r.height == height,
            r.round == round,
            r.block_hash == block_hash,
            r.sender == sender,
            r.signature@.len() == 0,
            r.timestamp == 0,
    {
        VoteMessage {
            vote_type: VoteType::Precommit,
            height,
            round,
            block_hash,
            sender,
            signature: Vec::new(),
            timestamp: 0,
        }
    }

    pub fn is_same_round(&self, other: &VoteMessage) -> (r: bool)
        ensures
            r == (self.height == other.height && self.round == other.round),
    {
        self.height == other.height && self.round == other.round
    }
}

/// Whether an optional block hash is the hash `h`.
pub open spec fn votes_for(b: Option<Hash32>, h: Seq<u8>) -> bool {
    b matches Some(x) && x.0@ == h
}

/// How many prevotes of a sequence vote for `h`.
pub open spec fn prevote_count_spec(s: Seq<(Address, Prevote)>, h: Seq<u8>) -> nat
    decreases s.len(),
{
    if s.len() == 0 {
        0
    } else {
        prevote_count_spec(s.drop_last(), h) + if votes_for(s.last().1.block_hash, h) {
            1nat
        } else {
            0nat
        }
    }
}

/// How many precommits of a sequence vote for `h`.
pub open spec fn precommit_count_spec(s: Seq<(Address, Precommit)>, h: Seq<u8>) -> nat
    decreases s.len(),
{
    if s.len() == 0 {
        0
    } else {
        precommit_count_spec(s.drop_last(), h) + if votes_for(s.last().1.block_hash, h) {
            1nat
        } else {
            0nat
        }
    }
}

/// The voters whose precommit in `m` is for `h`.
pub open spec fn precommit_voters(m: Map<Seq<u8>, Precommit>, h: Seq<u8>) -> Set<Seq<u8>> {
    m.dom().filter(|k: Seq<u8>| votes_for(m[k].block_hash, h))
}

/// The voters whose prevote in `m` is for `h`.
pub open spec fn prevote_voters(m: Map<Seq<u8>, Prevote>, h: Seq<u8>) -> Set<Seq<u8>> {
    m.dom().filter(|k: Seq<u8>| votes_for(m[k].block_hash, h))
}

proof fn lemma_precommit_count_seq(s: Seq<(Address, Precommit)>, h: Seq<u8>)
    requires
        distinct_keys(s),
    ensures
        precommit_voters(entries_map(s), h).finite(),
        precommit_count_spec(s, h) == precommit_voters(entries_map(s), h).len(),
    decreases s.len(),
{
    if s.len() == 0 {
        assert(precommit_voters(entries_map(s), h) =~= Set::<Seq<u8>>::empty());
    } else {
        let p = s.drop_last();
        let e = s.last();
        assert(distinct_keys(p)) by {
            assert forall|i: int, j: int| 0 <= i < p.len() && 0 <= j < p.len() && i != j implies p[i].0.kview()
                != p[j].0.kview() by {
                assert(p[i] == s[i] && p[j] == s[j]);
            }
        }
        lemma_precommit_count_seq(p, h);
        lemma_map_len(p);
        assert(s =~= p.push(e));
        let key = e.0.kview();
        if entries_map(p).dom().contains(key) {
            let i = choose|i: int| 0 <= i < p.len() && p[i].0.kview() == key;
            assert(s[i].0.kview() == s[s.len() - 1].0.kview());
        }
        lemma_push(p, e.0, e.1);
        let m = entries_map(p);
        let a = precommit_voters(m, h);
        let b = precommit_voters(entries_map(s), h);
        assert(a.subset_of(m.dom()));
        vstd::set_lib::lemma_len_subset(a, m.dom());
        if votes_for(e.1.block_hash, h) {
            assert(b =~= a.insert(key));
        } else {
            assert(b =~= a);
        }
    }
}

proof fn lemma_prevote_count_seq(s: Seq<(Address, Prevote)>, h: Seq<u8>)
    requires
        distinct_keys(s),
    ensures
        prevote_voters(entries_map(s), h).finite(),
        prevote_count_spec(s, h) == prevote_voters(entries_map(s), h).len(),
    decreases s.len(),
{
    if s.len() == 0 {
        assert(prevote_voters(entries_map(s), h) =~= Set::<Seq<u8>>::empty());
    } else {
        let p = s.drop_last();
        let e = s.last();
        assert(distinct_keys(p)) by {
            assert forall|i: int, j: int| 0 <= i < p.len() && 0 <= j < p.len() && i != j implies p[i].0.kview()
                != p[j].0.kview() by {
                assert(p[i] == s[i] && p[j] == s[j]);
            }
        }
        lemma_prevote_count_seq(p, h);
        lemma_map_len(p);
        assert(s =~= p.push(e));
        let key = e.0.kview();
        if entries_map(p).dom().contains(key) {
            let i = choose|i: int| 0 <= i < p.len() && p[i].0.kview() == key;
            assert(s[i].0.kview() == s[s.len() - 1].0.kview());
        }
        lemma_push(p, e.0, e.1);
        let m = entries_map(p);
        let a = prevote_voters(m, h);
        let b = prevote_voters(entries_map(s), h);
        assert(a.subset_of(m.dom()));
        vstd::set_lib::lemma_len_subset(a, m.dom());
        if votes_for(e.1.block_hash, h) {
            assert(b =~= a.insert(key));
        } else {
            assert(b =~= a);
        }
    }
}

/// The precommits a vote table counts for `h` are those of the voters whose
/// precommit is for `h`, one each: the count depends on the table's map
/// alone, not on the order of its entries.
pub proof fn lemma_precommit_count_is_voters(t: Table<Address, Precommit>, h: Seq<u8>)
    requires
        t.wf(),
    ensures
        precommit_voters(t@, h).finite(),
        precommit_count_spec(t.seq(), h) == precommit_voters(t@, h).len(),
{
    t.lemma_view();
    lemma_precommit_count_seq(t.seq(), h);
}

/// The prevotes a vote table counts for `h` are those of the voters whose
/// prevote is for `h`, one each.
pub proof fn lemma_prevote_count_is_voters(t: Table<Address, Prevote>, h: Seq<u8>)
    requires
        t.wf(),
    ensures
        prevote_voters(t@, h).finite(),
        prevote_count_spec(t.seq(), h) == prevote_voters(t@, h).len(),
{
    t.lemma_view();
    lemma_prevote_count_seq(t.seq(), h);
}

/// The weight that a voter carries in a validator sequence: that of the
/// first validator with its address, 0 when it is not a validator.
pub open spec fn voter_weight(vs: Seq<ValidatorInfo>, a: Seq<u8>) -> int {
    match first_with_address(vs, a) {
        Some(i) => vs[i].weight as int,
        None => 0,
    }
}

/// The total weight of the non-nil prevotes of a sequence.
pub open spec fn prevote_power_spec(s: Seq<(Address, Prevote)>, vs: Seq<ValidatorInfo>) -> int
    decreases s.len(),
{
    if s.len() == 0 {
        0
    } else {
        prevote_power_spec(s.drop_last(), vs) + if s.last().1.block_hash is Some {
            voter_weight(vs, s.last().1.voter.0@)
        } else {
            0
        }
    }
}

/// The total weight of the non-nil precommits of a sequence.
pub open spec fn precommit_power_spec(s: Seq<(Address, Precommit)>, vs: Seq<ValidatorInfo>) -> int
    decreases s.len(),
{
    if s.len() == 0 {
        0
    } else {
        precommit_power_spec(s.drop_last(), vs) + if s.last().1.block_hash is Some {
            voter_weight(vs, s.last().1.voter.0@)
        } else {
            0
        }
    }
}

proof fn lemma_prevote_count_le(s: Seq<(Address, Prevote)>, h: Seq<u8>)
    ensures
        prevote_count_spec(s, h) <= s.len(),
    decreases s.len(),
{
    if s.len() > 0 {
        lemma_prevote_count_le(s.drop_last(), h);
    }
}

proof fn lemma_precommit_count_le(s: Seq<(Address, Precommit)>, h: Seq<u8>)
    ensures
        precommit_count_spec(s, h) <= s.len(),
    decreases s.len(),
{
    if s.len() > 0 {
        lemma_precommit_count_le(s.drop_last(), h);
    }
}

proof fn lemma_prevote_power_mono(s: Seq<(Address, Prevote)>, vs: Seq<ValidatorInfo>, i: int)
    requires
        0 <= i <= s.len(),
    ensures
        0 <= prevote_power_spec(s.subrange(0, i), vs) <= prevote_power_spec(s, vs),
    decreases s.len() - i,
{
    if i < s.len() {
        lemma_prevote_power_mono(s, vs, i + 1);
        assert(s.subrange(0, i + 1).drop_last() =~= s.subrange(0, i));
    } else {
        assert(s.subrange(0, i) =~= s);
    }
    lemma_prevote_power_nonneg(s.subrange(0, i), vs);
}

proof fn lemma_prevote_power_nonneg(s: Seq<(Address, Prevote)>, vs: Seq<ValidatorInfo>)
    ensures
        prevote_power_spec(s, vs) >= 0,
    decreases s.len(),
{
    if s.len() > 0 {
        lemma_prevote_power_nonneg(s.drop_last(), vs);
    }
}

proof fn lemma_precommit_power_mono(s: Seq<(Address, Precommit)>, vs: Seq<ValidatorInfo>, i: int)
    requires
        0 <= i <= s.len(),
    ensures
        0 <= precommit_power_spec(s.subrange(0, i), vs) <= precommit_power_spec(s, vs),
    decreases s.len() - i,
{
    if i < s.len() {
        lemma_precommit_power_mono(s, vs, i + 1);
        assert(s.subrange(0, i + 1).drop_last() =~= s.subrange(0, i));
    } else {
        assert(s.subrange(0, i) =~= s);
    }
    lemma_precommit_power_nonneg(s.subrange(0, i), vs);
}

proof fn lemma_precommit_power_nonneg(s: Seq<(Address, Precommit)>, vs: Seq<ValidatorInfo>)
    ensures
        precommit_power_spec(s, vs) >= 0,
    decreases s.len(),
{
    if s.len() > 0 {
        lemma_precommit_power_nonneg(s.drop_last(), vs);
    }
}

/// Whether an optional hash is `h`.
fn opt_hash_is(b: &Option<Hash32>, h: &Hash32) -> (r: bool)
    ensures
        r == votes_for(*b, h.0@),
{
    match b {
        Some(x) => *x == *h,
        None => false,
    }
}

/// The votes of one round, one per voter.
#[derive(Debug)]
pub struct RoundVotes {
    pub height: u64,
    pub round: u64,
    pub prevotes: Table<Address, Prevote>,
    pub precommits: Table<Address, Precommit>,
    pub proposal: Option<Proposal>,
}

impl RoundVotes {
    /// Both vote tables are well formed.
    pub open spec fn wf(&self) -> bool {
        self.prevotes.wf() && self.precommits.wf()
    }

    pub fn new(height: u64, round: u64) -> (r: Self)
        ensures
            r.wf(),
            r.height == height,
            r.round == round,
            r.prevotes@.dom().len() == 0,
            r.precommits@.dom().len() == 0,
            r.prevotes.seq().len() == 0,
            r.precommits.seq().len() == 0,
            r.proposal is None,
    {
        RoundVotes { height, round, prevotes: Table::new(), precommits: Table::new(), proposal: None }
    }

    pub fn set_proposal(&mut self, proposal: Proposal)
        ensures
            final(self).proposal == Some(proposal),
            final(self).height == old(self).height,
            final(self).round == old(self).round,
            final(self).prevotes == old(self).prevotes,
            final(self).precommits == old(self).precommits,
    {
        self.proposal = Some(proposal);
    }

    /// Records a prevote of this height and round (replacing the voter's
    /// earlier one); true when the voter had not voted before.
    pub fn add_prevote(&mut self, prevote: Prevote) -> (r: bool)
        requires
            old(self).wf(),
        ensures
            final(self).wf(),
            final(self).height == old(self).height,
            final(self).round == old(self).round,
            final(self).proposal == old(self).proposal,
            final(self).precommits == old(self).precommits,
            prevote.height != old(self).height || prevote.round != old(self).round ==> !r && final(self).prevotes == old(self).prevotes,
            prevote.height == old(self).height && prevote.round == old(self).round ==> {
                &&& final(self).prevotes@ == old(self).prevotes@.insert(prevote.voter.0@, prevote)
                &&& r == !old(self).prevotes@.dom().contains(prevote.voter.0@)
            },
    {
        if prevote.height != self.height || prevote.round != self.round {
            return false;
        }
        self.prevotes.insert(prevote.voter, prevote).is_none()
    }

    /// Records a precommit of this height and round (replacing the voter's
    /// earlier one); true when the voter had not voted before.
    pub fn add_precommit(&mut self, precommit: Precommit) -> (r: bool)
        requires
            old(self).wf(),
        ensures
            final(self).wf(),
            final(self).height == old(self).height,
            final(self).round == old(self).round,
            final(self).proposal == old(self).proposal,
            final(self).prevotes == old(self).prevotes,
            precommit.height != old(self).height || precommit.round != old(self).round ==> !r
                && final(self).precommits == old(self).precommits,
            precommit.height == old(self).height && precommit.round == old(self).round ==> {
                &&& final(self).precommits@ == old(self).precommits@.insert(precommit.voter.0@, precommit)
                &&& r == !old(self).precommits@.dom().contains(precommit.voter.0@)
            },
    {
        if precommit.height != self.height || precommit.round != self.round {
            return false;
        }
        self.precommits.insert(precommit.voter, precommit).is_none()
    }

    /// The number of prevotes for `block_hash`.
    pub fn prevote_count(&self, block_hash: &Hash32) -> (r: u32)
        requires
            self.wf(),
        ensures
            r == prevote_count_spec(self.prevotes.seq(), block_hash.0@) as u32,
    {
        let ghost s = self.prevotes.seq();
        let n = self.prevotes.len();
        let mut count: usize = 0;
        let mut i: usize = 0;
        while i < n
            invariant
                self.wf(),
                s == self.prevotes.seq(),
                n == s.len(),
                i <= n,
                count == prevote_count_spec(s.subrange(0, i as int), block_hash.0@),
            decreases n - i,
        {
            proof {
                assert(s.subrange(0, i + 1).drop_last() =~= s.subrange(0, i as int));
                lemma_prevote_count_le(s.subrange(0, i as int), block_hash.0@);
            }
            let p = self.prevotes.value_at(i);
            if opt_hash_is(&p.block_hash, block_hash) {
                count = count + 1;
            }
            i = i + 1;
        }
        assert(s.subrange(0, n as int) =~= s);
        count as u32
    }

    /// The number of precommits for `block_hash`.
    pub fn precommit_count(&self, block_hash: &Hash32) -> (r: u32)
        requires
            self.wf(),
        ensures
            r == precommit_count_spec(self.precommits.seq(), block_hash.0@) as u32,
    {
        let ghost s = self.precommits.seq();
        let n = self.precommits.len();
        let mut count: usize = 0;
        let mut i: usize = 0;
        while i < n
            invariant
                self.wf(),
                s == self.precommits.seq(),
                n == s.len(),
                i <= n,
                count == precommit_count_spec(s.subrange(0, i as int), block_hash.0@),
            decreases n - i,
        {
            proof {
                assert(s.subrange(0, i + 1).drop_last() =~= s.subrange(0, i as int));
                lemma_precommit_count_le(s.subrange(0, i as int), block_hash.0@);
            }
            let p = self.precommits.value_at(i);
            if opt_hash_is(&p.block_hash, block_hash) {
                count = count + 1;
            }
            i = i + 1;
        }
        assert(s.subrange(0, n as int) =~= s);
        count as u32
    }

    pub fn has_quorum_prevotes(&self, quorum_size: u32, block_hash: &Hash32) -> (r: bool)
        requires
            self.wf(),
        ensures
            r == (prevote_count_spec(self.prevotes.seq(), block_hash.0@) as u32 >= quorum_size),
    {
        self.prevote_count(block_hash) >= quorum_size
    }

    pub fn has_quorum_precommits(&self, quorum_size: u32, block_hash: &Hash32) -> (r: bool)
        requires
            self.wf(),
        ensures
            r == (precommit_count_spec(self.precommits.seq(), block_hash.0@) as u32 >= quorum_size),
    {
        self.precommit_count(block_hash) >= quorum_size
    }

    /// The total weight of the validators behind non-nil prevotes.
    pub fn prevote_power(&self, validator_set: &ValidatorSet) -> (r: u64)
        requires
            self.wf(),
            prevote_power_spec(self.prevotes.seq(), validator_set@) <= u64::MAX,
        ensures
            r == prevote_power_spec(self.prevotes.seq(), validator_set@),
    {
        let ghost s = self.prevotes.seq();
        let n = self.prevotes.len();
        let mut total: u64 = 0;
        let mut i: usize = 0;
        while i < n
            invariant
                self.wf(),
                s == self.prevotes.seq(),
                n == s.len(),
                i <= n,
                prevote_power_spec(s, validator_set@) <= u64::MAX,
                total == prevote_power_spec(s.subrange(0, i as int), validator_set@),
            decreases n - i,
        {
            proof {
                assert(s.subrange(0, i + 1).drop_last() =~= s.subrange(0, i as int));
                lemma_prevote_power_mono(s, validator_set@, i + 1);
            }
            let p = self.prevotes.value_at(i);
            if p.block_hash.is_some() {
                match validator_set.get(&p.voter) {
                    Some(v) => {
                        total = total + v.weight;
                    },
                    None => {},
                }
            }
            i = i + 1;
        }
        assert(s.subrange(0, n as int) =~= s);
        total
    }

    /// The total weight of the validators behind non-nil precommits.
    pub fn precommit_power(&self, validator_set: &ValidatorSet) -> (r: u64)
        requires
            self.wf(),
            precommit_power_spec(self.precommits.seq(), validator_set@) <= u64::MAX,
        ensures
            r == precommit_power_spec(self.precommits.seq(), validator_set@),
    {
        let ghost s = self.precommits.seq();
        let n = self.precommits.len();
        let mut total: u64 = 0;
        let mut i: usize = 0;
        while i < n
            invariant
                self.wf(),
                s == self.precommits.seq(),
                n == s.len(),
                i <= n,
                precommit_power_spec(s, validator_set@) <= u64::MAX,
                total == precommit_power_spec(s.subrange(0, i as int), validator_set@),
            decreases n - i,
        {
            proof {
                assert(s.subrange(0, i + 1).drop_last() =~= s.subrange(0, i as int));
                lemma_precommit_power_mono(s, validator_set@, i + 1);
            }
            let p = self.precommits.value_at(i);
            if p.block_hash.is_some() {
                match validator_set.get(&p.voter) {
                    Some(v) => {
                        total = total + v.weight;
                    },
                    None => {},
                }
            }
            i = i + 1;
        }
        assert(s.subrange(0, n as int) =~= s);
        total
    }
}

} // verus!

verus! {

/// The state of one consensus round.
#[derive(Debug)]
pub struct ConsensusRound {
    pub height: u64,
    pub round: u64,
    pub state: RoundState,
    pub proposer: Option<Address>,
    pub votes: RoundVotes,
    pub locked_block: Option<Hash32>,
    pub locked_round: Option<u64>,
    pub valid_block: Option<Hash32>,
    pub valid_round: Option<u64>,
}

impl ConsensusRound {
    pub fn new(height: u64, round: u64, proposer: Option<Address>) -> (r: Self)
        ensures
            r.votes.wf(),
            r.height == height,
            r.round == round,
            r.state == RoundState::Propose,
            r.proposer == proposer,
            r.votes.height == height,
            r.votes.round == round,
            r.votes.prevotes@.dom().len() == 0,
            r.votes.precommits@.dom().len() == 0,
            r.votes.prevotes.seq().len() == 0,
            r.votes.precommits.seq().len() == 0,
            r.votes.proposal is None,
            r.locked_block is None,
            r.locked_round is None,
            r.valid_block is None,
            r.valid_round is None,
    {
        ConsensusRound {
            height,
            round,
            state: RoundState::Propose,
            proposer,
            votes: RoundVotes::new(height, round),
            locked_block: None,
            locked_round: None,
            valid_block: None,
            valid_round: None,
        }
    }

    pub fn set_state(&mut self, state: RoundState)
        ensures
            *final(self) == (ConsensusRound { state, ..*old(self) }),
    {
        self.state = state;
    }

    pub fn set_proposal(&mut self, proposal: Proposal)
        ensures
            final(self).votes.proposal == Some(proposal),
            final(self).votes.prevotes == old(self).votes.prevotes,
            final(self).votes.precommits == old(self).votes.precommits,
            final(self).votes.height == old(self).votes.height,
            final(self).votes.round == old(self).votes.round,
            *final(self) == (ConsensusRound { votes: final(self).votes, ..*old(self) }),
    {
        self.votes.set_proposal(proposal);
    }

    pub fn add_prevote(&mut self, prevote: Prevote) -> (r: bool)
        requires
            old(self).votes.wf(),
        ensures
            final(self).votes.wf(),
            *final(self) == (ConsensusRound { votes: final(self).votes, ..*old(self) }),
            final(self).votes.height == old(self).votes.height,
            final(self).votes.round == old(self).votes.round,
            final(self).votes.proposal == old(self).votes.proposal,
            final(self).votes.precommits == old(self).votes.precommits,
            prevote.height != old(self).votes.height || prevote.round != old(self).votes.round ==> !r
                && final(self).votes.prevotes == old(self).votes.prevotes,
            prevote.height == old(self).votes.height && prevote.round == old(self).votes.round ==> {
                &&& final(self).votes.prevotes@ == old(self).votes.prevotes@.insert(prevote.voter.0@, prevote)
                &&& r == !old(self).votes.prevotes@.dom().contains(prevote.voter.0@)
            },
    {
        self.votes.add_prevote(prevote)
    }

    pub fn add_precommit(&mut self, precommit: Precommit) -> (r: bool)
        requires
            old(self).votes.wf(),
        ensures
            final(self).votes.wf(),
            *final(self) == (ConsensusRound { votes: final(self).votes, ..*old(self) }),
            final(self).votes.height == old(self).votes.height,
            final(self).votes.round == old(self).votes.round,
            final(self).votes.proposal == old(self).votes.proposal,
            final(self).votes.prevotes == old(self).votes.prevotes,
            precommit.height != old(self).votes.height || precommit.round != old(self).votes.round
                ==> !r && final(self).votes.precommits == old(self).votes.precommits,
            precommit.height == old(self).votes.height && precommit.round == old(self).votes.round ==> {
                &&& final(self).votes.precommits@ == old(self).votes.precommits@.insert(precommit.voter.0@, precommit)
                &&& r == !old(self).votes.precommits@.dom().contains(precommit.voter.0@)
            },
    {
        self.votes.add_precommit(precommit)
    }

    pub fn lock(&mut self, block_hash: Hash32)
        ensures
            *final(self) == (ConsensusRound {
                locked_block: Some(block_hash),
                locked_round: Some(old(self).round),
                ..*old(self)
            }),
    {
        self.locked_block = Some(block_hash);
        self.locked_round = Some(self.round);
    }

    pub fn unlock(&mut self)
        ensures
            *final(self) == (ConsensusRound { locked_block: None, locked_round: None, ..*old(self) }),
    {
        self.locked_block = None;
        self.locked_round = None;
    }

    pub fn set_valid(&mut self, block_hash: Hash32)
        ensures
            *final(self) == (ConsensusRound {
                valid_block: Some(block_hash),
                valid_round: Some(old(self).round),
                ..*old(self)
            }),
    {
        self.valid_block = Some(block_hash);
        self.valid_round = Some(self.round);
    }
}

/// A validator's signature over a block.
#[derive(Clone, Debug)]
pub struct ValidatorSignature {
    pub validator: Address,
    pub signature: Vec<u8>,
    pub block_hash: Hash32,
}

/// A collection of validator signatures finalizing a block.
#[derive(Clone, Debug)]
pub struct FinalitySignature {
    pub block_hash: Hash32,
    pub block_number: u64,
    pub validator_set_id: u64,
    pub signatures: Vec<ValidatorSignature>,
    pub is_commit: bool,
}

/// More than two thirds of `n`, in `u32` arithmetic.
pub open spec fn quorum_of(n: u32) -> u32 {
    ((n * 2) / 3 + 1) as u32
}

impl FinalitySignature {
    pub fn new(block_hash: Hash32, block_number: u64, validator_set_id: u64) -> (r: Self)
        ensures
            r.block_hash == block_hash,
            r.block_number == block_number,
            r.validator_set_id == validator_set_id,
            r.signatures@.len() == 0,
            !r.is_commit,
    {
        FinalitySignature {
            block_hash,
            block_number,
            validator_set_id,
            signatures: Vec::new(),
            is_commit: false,
        }
    }

    /// Appends a signature of `validator` over this block.
    pub fn add_signature(&mut self, validator: Address, signature: Vec<u8>)
        ensures
            final(self).signatures@.len() == old(self).signatures@.len() + 1,
            final(self).signatures@.drop_last() == old(self).signatures@,
            final(self).signatures@.last().validator == validator,
            final(self).signatures@.last().signature == signature,
            final(self).signatures@.last().block_hash == old(self).block_hash,
            final(self).block_hash == old(self).block_hash,
            final(self).block_number == old(self).block_number,
            final(self).validator_set_id == old(self).validator_set_id,
            final(self).is_commit == old(self).is_commit,
    {
        let bh = self.block_hash;
        self.signatures.push(ValidatorSignature { validator, signature, block_hash: bh });
        assert(self.signatures@.drop_last() =~= old(self).signatures@);
    }

    /// Whether the signatures reach more than two thirds of `total_validators`.
    pub fn quorum_reached(&self, total_validators: u32) -> (r: bool)
        requires
            total_validators * 2 <= u32::MAX,
        ensures
            r == ((self.signatures@.len() as u32) >= quorum_of(total_validators)),
    {
        let quorum = (total_validators * 2) / 3 + 1;
        self.signatures.len() as u32 >= quorum
    }

    pub fn has_signature_from(&self, validator: &Address) -> (r: bool)
        ensures
            r == exists|i: int| 0 <= i < self.signatures@.len() && self.signatures@[i].validator.0@ == validator.0@,
    {
        let mut i: usize = 0;
        while i < self.signatures.len()
            invariant
                i <= self.signatures@.len(),
                forall|j: int| 0 <= j < i ==> self.signatures@[j].validator.0@ != validator.0@,
            decreases self.signatures@.len() - i,
        {
            if self.signatures[i].validator == *validator {
                return true;
            }
            i = i + 1;
        }
        false
    }
}

/// Which fork to follow.
#[derive(Clone, Copy, Debug, PartialEq, Eq, Structural)]
pub enum ForkChoice {
    Left,
    Right,
    Neither,
}

/// The fork choice: the strictly higher fork when it is also above the
/// current height; between equal heights the greater hash (byte order);
/// otherwise none.
pub open spec fn fork_choice_spec(
    current_height: u64,
    left_hash: Seq<u8>,
    left_height: u64,
    right_hash: Seq<u8>,
    right_height: u64,
) -> ForkChoice {
    if left_height > right_height && left_height > current_height {
        ForkChoice::Left
    } else if right_height > left_height && right_height > current_height {
        ForkChoice::Right
    } else if left_height == right_height {
        if seq_lt(right_hash, left_hash) {
            ForkChoice::Left
        } else {
            ForkChoice::Right
        }
    } else {
        ForkChoice::Neither
    }
}

/// The total number of signatures in the finality signatures for `block_hash`
/// that reach a quorum of `n` validators.
pub open spec fn counted_signatures(sigs: Seq<FinalitySignature>, block_hash: Seq<u8>, n: u32) -> int
    decreases sigs.len(),
{
    if sigs.len() == 0 {
        0
    } else {
        counted_signatures(sigs.drop_last(), block_hash, n) + if sigs.last().block_hash.0@ == block_hash
            && (sigs.last().signatures@.len() as u32) >= quorum_of(n) {
            sigs.last().signatures@.len() as int
        } else {
            0
        }
    }
}

proof fn lemma_counted_mono(sigs: Seq<FinalitySignature>, block_hash: Seq<u8>, n: u32, i: int)
    requires
        0 <= i <= sigs.len(),
    ensures
        0 <= counted_signatures(sigs.subrange(0, i), block_hash, n) <= counted_signatures(sigs, block_hash, n),
    decreases sigs.len() - i,
{
    if i < sigs.len() {
        lemma_counted_mono(sigs, block_hash, n, i + 1);
        assert(sigs.subrange(0, i + 1).drop_last() =~= sigs.subrange(0, i));
    } else {
        assert(sigs.subrange(0, i) =~= sigs);
    }
    lemma_counted_nonneg(sigs.subrange(0, i), block_hash, n);
}

proof fn lemma_counted_nonneg(sigs: Seq<FinalitySignature>, block_hash: Seq<u8>, n: u32)
    ensures
        counted_signatures(sigs, block_hash, n) >= 0,
    decreases sigs.len(),
{
    if sigs.len() > 0 {
        lemma_counted_nonneg(sigs.drop_last(), block_hash, n);
    }
}

/// The fork choice rule and block validation by finality signatures.
pub struct ForkChoiceRule;

impl ForkChoiceRule {
    pub fn choose_fork(
        current_head: Hash32,
        current_height: u64,
        left_hash: Hash32,
        left_height: u64,
        right_hash: Hash32,
        right_height: u64,
    ) -> (r: ForkChoice)
        ensures
            r == fork_choice_spec(current_height, left_hash.0@, left_height, right_hash.0@, right_height),
    {
        if left_height > right_height && left_height > current_height {
            ForkChoice::Left
        } else if right_height > left_height && right_height > current_height {
            ForkChoice::Right
        } else if left_height == right_height {
            if bytes_lt(right_hash.0.as_slice(), left_hash.0.as_slice()) {
                ForkChoice::Left
            } else {
                ForkChoice::Right
            }
        } else {
            ForkChoice::Neither
        }
    }

    /// A block is valid when the finality signatures for it that each reach
    /// a quorum together hold at least a quorum of signatures.
    pub fn validate_block(
        block_hash: Hash32,
        parent_hash: Hash32,
        validator_set: &ValidatorSet,
        finality_signatures: &[FinalitySignature],
    ) -> (r: bool)
        requires
            validator_set@.len() * 2 <= usize::MAX,
            (validator_set@.len() as u32) * 2 <= u32::MAX,
            counted_signatures(finality_signatures@, block_hash.0@, validator_set@.len() as u32) <= usize::MAX,
        ensures
            validator_set@.len() == 0 ==> !r,
            validator_set@.len() > 0 ==> r == (counted_signatures(
                finality_signatures@,
                block_hash.0@,
                validator_set@.len() as u32,
            ) >= (validator_set@.len() * 2 / 3 + 1) as u32 as usize),
    {
        if validator_set.is_empty() {
            return false;
        }
        let quorum = validator_set.quorum_size() as usize;
        let n = validator_set.len() as u32;
        let mut signature_count: usize = 0;
        let mut i: usize = 0;
        while i < finality_signatures.len()
            invariant
                i <= finality_signatures@.len(),
                n == validator_set@.len() as u32,
                n * 2 <= u32::MAX,
                counted_signatures(finality_signatures@, block_hash.0@, n) <= usize::MAX,
                signature_count == counted_signatures(finality_signatures@.subrange(0, i as int), block_hash.0@, n),
            decreases finality_signatures@.len() - i,
        {
            proof {
                assert(finality_signatures@.subrange(0, i + 1).drop_last() =~= finality_signatures@.subrange(0, i as int));
                lemma_counted_mono(finality_signatures@, block_hash.0@, n, i + 1);
            }
            let sig = &finality_signatures[i];
            if sig.block_hash == block_hash && sig.quorum_reached(n) {
                signature_count = signature_count + sig.signatures.len();
            }
            i = i + 1;
        }
        assert(finality_signatures@.subrange(0, i as int) =~= finality_signatures@);
        signature_count >= quorum
    }
}

/// Counters describing consensus progress.
#[derive(Clone, Copy, Debug)]
pub struct ConsensusMetrics {
    pub height: u64,
    pub round: u64,
    pub prevotes_count: u32,
    pub precommits_count: u32,
    pub validators_online: u32,
    pub last_block_time_ms: u64,
    pub block_time_avg_ms: u64,
}

impl ConsensusMetrics {
    pub fn new() -> (r: Self)
        ensures
            r.height == 0 && r.round == 0 && r.prevotes_count == 0 && r.precommits_count == 0
                && r.validators_online == 0 && r.last_block_time_ms == 0 && r.block_time_avg_ms == 0,
    {
        ConsensusMetrics {
            height: 0,
            round: 0,
            prevotes_count: 0,
            precommits_count: 0,
            validators_online: 0,
            last_block_time_ms: 0,
            block_time_avg_ms: 0,
        }
    }
}

impl Default for ConsensusMetrics {
    fn default() -> (r: Self)
        ensures
            r.height == 0 && r.round == 0 && r.prevotes_count == 0 && r.precommits_count == 0
                && r.validators_online == 0 && r.last_block_time_ms == 0 && r.block_time_avg_ms == 0,
    {
        ConsensusMetrics::new()
    }
}

} // verus!

verus! {

/// The quorum size of a validator sequence: more than two thirds of it.
pub open spec fn quorum_len(vs: Seq<ValidatorInfo>) -> u32 {
    (vs.len() * 2 / 3 + 1) as u32
}

/// The consensus engine: height, round, validators, the current round and
/// the lock and valid-block bookkeeping across rounds.
pub struct ConsensusEngine {
    pub height: u64,
    pub round: u64,
    pub validator_set: ValidatorSet,
    pub current_round: Option<ConsensusRound>,
    pub locked_block: Option<Hash32>,
    pub locked_round: Option<u64>,
    pub valid_block: Option<Hash32>,
    pub valid_round: Option<u64>,
    pub last_commit: Option<FinalitySignature>,
    pub last_commit_round: Option<u64>,
}

impl ConsensusEngine {
    /// The current round's vote tables are well formed and belong to its
    /// height and round; the validator set is small enough to count quorums.
    pub open spec fn wf(&self) -> bool {
        &&& self.validator_set@.len() * 2 <= usize::MAX
        &&& self.current_round matches Some(r) ==> r.votes.wf() && r.votes.height == r.height
            && r.votes.round == r.round
    }

    /// The engine after a prevote quorum for `h` in the current round: the
    /// round moves to Precommit, the engine locks on `h` unless already
    /// locked, and `h` becomes the valid block.
    pub open spec fn after_prevote_quorum(self, h: Hash32) -> ConsensusEngine {
        ConsensusEngine {
            current_round: Some(ConsensusRound { state: RoundState::Precommit, ..self.current_round->0 }),
            locked_block: if self.locked_block is None { Some(h) } else { self.locked_block },
            locked_round: if self.locked_block is None { Some(self.round) } else { self.locked_round },
            valid_block: Some(h),
            valid_round: Some(self.round),
            ..self
        }
    }

    /// Whether the current round has a proposal whose hash has a prevote quorum.
    pub open spec fn prevote_quorum(&self) -> bool {
        &&& self.current_round matches Some(r)
        &&& r.votes.proposal matches Some(p)
        &&& prevote_count_spec(r.votes.prevotes.seq(), p.block_hash.0@) as u32 >= quorum_len(self.validator_set@)
    }

    /// Whether the current round has a proposal whose hash has a precommit quorum.
    pub open spec fn precommit_quorum(&self) -> bool {
        &&& self.current_round matches Some(r)
        &&& r.votes.proposal matches Some(p)
        &&& precommit_count_spec(r.votes.precommits.seq(), p.block_hash.0@) as u32 >= quorum_len(self.validator_set@)
    }

    /// Whether the engine has a current round at height `h` and round `r`.
    pub open spec fn targets(self, h: u64, r: u64) -> bool {
        self.current_round matches Some(cr) && cr.height == h && cr.round == r
    }

    /// The engine with the current round's votes replaced by `v`.
    pub open spec fn with_votes(self, v: RoundVotes) -> ConsensusEngine {
        ConsensusEngine { current_round: Some(ConsensusRound { votes: v, ..self.current_round->0 }), ..self }
    }

    /// The engine with the current round in phase `s`.
    pub open spec fn with_round_state(self, s: RoundState) -> ConsensusEngine {
        ConsensusEngine { current_round: Some(ConsensusRound { state: s, ..self.current_round->0 }), ..self }
    }

    pub fn new() -> (r: Self)
        ensures
            r.wf(),
            r.height == 0,
            r.round == 0,
            r.validator_set@.len() == 0,
            r.current_round is None,
            r.locked_block is None && r.locked_round is None,
            r.valid_block is None && r.valid_round is None,
            r.last_commit is None && r.last_commit_round is None,
    {
        ConsensusEngine {
            height: 0,
            round: 0,
            validator_set: ValidatorSet::new(),
            current_round: None,
            locked_block: None,
            locked_round: None,
            valid_block: None,
            valid_round: None,
            last_commit: None,
            last_commit_round: None,
        }
    }

    pub fn with_validators(validators: Vec<ValidatorInfo>) -> (r: Self)
        ensures
            r.height == 0,
            r.round == 0,
            r.validator_set@ == validators@,
            r.current_round is None,
            r.locked_block is None && r.locked_round is None,
            r.valid_block is None && r.valid_round is None,
            r.last_commit is None && r.last_commit_round is None,
            validators@.len() * 2 <= usize::MAX ==> r.wf(),
    {
        ConsensusEngine {
            height: 0,
            round: 0,
            validator_set: ValidatorSet::with_validators(validators),
            current_round: None,
            locked_block: None,
            locked_round: None,
            valid_block: None,
            valid_round: None,
            last_commit: None,
            last_commit_round: None,
        }
    }

    /// Starts a round: a greater height resets the round to 0 and clears the
    /// lock and valid block; otherwise the height stays and the round is set.
    /// The new round starts in Propose with the proposer of the set and the
    /// engine's lock and valid block.
    pub fn start_new_round(&mut self, height: u64, round: u64)
        requires
            old(self).wf(),
            (if height > old(self).height { height as int } else { old(self).height + round }) <= u64::MAX,
        ensures
            final(self).wf(),
            final(self).validator_set == old(self).validator_set,
            height > old(self).height ==> final(self).height == height && final(self).round == 0
                && final(self).locked_block is None && final(self).locked_round is None
                && final(self).valid_block is None && final(self).valid_round is None,
            height <= old(self).height ==> final(self).height == old(self).height && final(self).round
                == round && final(self).locked_block == old(self).locked_block && final(self).locked_round
                == old(self).locked_round && final(self).valid_block == old(self).valid_block
                && final(self).valid_round == old(self).valid_round,
            final(self).last_commit == old(self).last_commit,
            final(self).last_commit_round == old(self).last_commit_round,
            final(self).current_round matches Some(r) && {
                &&& r.height == final(self).height
                &&& r.round == final(self).round
                &&& r.state == RoundState::Propose
                &&& r.proposer == (if old(self).validator_set@.len() == 0 {
                    None
                } else {
                    Some(old(self).validator_set@[(((final(self).height + final(self).round) as u64) as usize) as int
                        % old(self).validator_set@.len() as int].address)
                })
                &&& r.votes.prevotes.seq().len() == 0 && r.votes.precommits.seq().len() == 0
                &&& r.votes.proposal is None
                &&& r.locked_block == final(self).locked_block
                &&& r.locked_round == final(self).locked_round
                &&& r.valid_block == final(self).valid_block
                &&& r.valid_round == final(self).valid_round
            },
    {
        if height > self.height {
            self.height = height;
            self.round = 0;
            self.locked_block = None;
            self.locked_round = None;
            self.valid_block = None;
            self.valid_round = None;
        } else {
            self.round = round;
        }
        let proposer = self.validator_set.get_proposer(self.height, self.round);
        let mut consensus_round = ConsensusRound::new(self.height, self.round, proposer);
        consensus_round.locked_block = self.locked_block;
        consensus_round.locked_round = self.locked_round;
        consensus_round.valid_block = self.valid_block;
        consensus_round.valid_round = self.valid_round;
        self.current_round = Some(consensus_round);
    }

    /// The proposer for the engine's height and round.
    pub fn get_proposer(&self) -> (r: Option<Address>)
        requires
            self.height + self.round <= u64::MAX,
        ensures
            self.validator_set@.len() == 0 ==> r is None,
            self.validator_set@.len() > 0 ==> r == Some(self.validator_set@[(((self.height + self.round) as u64) as usize) as int
                % self.validator_set@.len() as int].address),
    {
        self.validator_set.get_proposer(self.height, self.round)
    }

    pub fn is_proposer(&self, address: &Address) -> (r: bool)
        requires
            self.height + self.round <= u64::MAX,
        ensures
            r == (self.validator_set@.len() > 0 && self.validator_set@[(((self.height + self.round) as u64) as usize) as int
                % self.validator_set@.len() as int].address.0@ == address.0@),
    {
        match self.get_proposer() {
            Some(p) => p == *address,
            None => false,
        }
    }

    /// Records a proposal for the current round; false when there is no
    /// current round or the proposal is for another height or round.
    pub fn receive_proposal(&mut self, proposal: Proposal) -> (r: bool)
        requires
            old(self).wf(),
        ensures
            final(self).wf(),
            r == (old(self).current_round matches Some(cr) && cr.height == proposal.height && cr.round
                == proposal.round),
            r ==> *final(self) == old(self).with_votes(
                RoundVotes { proposal: Some(proposal), ..old(self).current_round->0.votes },
            ),
            !r ==> *final(self) == *old(self),
    {
        let ghost e0 = *self;
        if let Some(ref mut cr) = self.current_round {
            if cr.height == proposal.height && cr.round == proposal.round {
                cr.set_proposal(proposal);
                return true;
            }
        }
        false
    }

    /// Records a prevote for the current round. When it is the voter's first
    /// prevote there, checks for a prevote quorum and returns true.
    pub fn receive_prevote(&mut self, prevote: Prevote) -> (r: bool)
        requires
            old(self).wf(),
        ensures
            final(self).wf(),
            !old(self).targets(prevote.height, prevote.round) ==> !r && *final(self) == *old(self),
            old(self).targets(prevote.height, prevote.round) ==> {
                let cr = old(self).current_round->0;
                let added = old(self).with_votes(
                    RoundVotes { prevotes: final(self).current_round->0.votes.prevotes, ..cr.votes },
                );
                &&& final(self).current_round->0.votes.prevotes@ == cr.votes.prevotes@.insert(prevote.voter.0@, prevote)
                &&& r == !cr.votes.prevotes@.dom().contains(prevote.voter.0@)
                &&& !r ==> *final(self) == added
                &&& r && added.prevote_quorum() ==> *final(self) == added.after_prevote_quorum(
                    cr.votes.proposal->0.block_hash,
                )
                &&& r && !added.prevote_quorum() ==> *final(self) == added
            },
            ({
                let p = old(self).current_round->0.votes.proposal->0;
                old(self).targets(prevote.height, prevote.round) && r && old(self).current_round->0.votes.proposal is Some
                    && prevote_voters(final(self).current_round->0.votes.prevotes@, p.block_hash.0@).len() as u32
                    >= quorum_len(old(self).validator_set@) ==> final(self).current_round->0.state == RoundState::Precommit
                    && final(self).valid_block == Some(p.block_hash) && final(self).current_round->0.votes.proposal
                    == Some(p)
            }),
    {
        let mut added = false;
        if let Some(ref mut cr) = self.current_round {
            if cr.height == prevote.height && cr.round == prevote.round {
                added = cr.add_prevote(prevote);
                if !added {
                    return false;
                }
            } else {
                return false;
            }
        } else {
            return false;
        }
        proof {
            match self.current_round->0.votes.proposal {
                Some(p) => {
                    lemma_prevote_count_is_voters(self.current_round->0.votes.prevotes, p.block_hash.0@);
                },
                None => {},
            }
        }
        self.check_prevote_quorum();
        true
    }

    /// Records a precommit for the current round. When it is the voter's
    /// first precommit there, a precommit quorum finalizes the round: once
    /// the voters whose precommit is for the proposal reach the quorum size,
    /// the round is Finalized with its proposal.
    pub fn receive_precommit(&mut self, precommit: Precommit) -> (r: bool)
        requires
            old(self).wf(),
        ensures
            final(self).wf(),
            !old(self).targets(precommit.height, precommit.round) ==> !r && *final(self) == *old(self),
            old(self).targets(precommit.height, precommit.round) ==> {
                let cr = old(self).current_round->0;
                let added = old(self).with_votes(
                    RoundVotes { precommits: final(self).current_round->0.votes.precommits, ..cr.votes },
                );
                &&& final(self).current_round->0.votes.precommits@ == cr.votes.precommits@.insert(precommit.voter.0@, precommit)
                &&& r == !cr.votes.precommits@.dom().contains(precommit.voter.0@)
                &&& !r ==> *final(self) == added
                &&& r && added.precommit_quorum() ==> *final(self) == added.with_round_state(RoundState::Finalized)
                &&& r && !added.precommit_quorum() ==> *final(self) == added
            },
            ({
                let p = old(self).current_round->0.votes.proposal->0;
                old(self).targets(precommit.height, precommit.round) && r && old(self).current_round->0.votes.proposal is Some
                    && precommit_voters(final(self).current_round->0.votes.precommits@, p.block_hash.0@).len() as u32
                    >= quorum_len(old(self).validator_set@) ==> final(self).current_round->0.state == RoundState::Finalized
                    && final(self).current_round->0.votes.proposal == Some(p)
            }),
    {
        let mut added = false;
        if let Some(ref mut cr) = self.current_round {
            if cr.height == precommit.height && precommit.round == cr.round {
                added = cr.add_precommit(precommit);
                if !added {
                    return false;
                }
            } else {
                return false;
            }
        } else {
            return false;
        }
        proof {
            match self.current_round->0.votes.proposal {
                Some(p) => {
                    lemma_precommit_count_is_voters(self.current_round->0.votes.precommits, p.block_hash.0@);
                },
                None => {},
            }
        }
        self.check_precommit_quorum();
        true
    }

    fn check_prevote_quorum(&mut self)
        requires
            old(self).wf(),
        ensures
            final(self).wf(),
            old(self).prevote_quorum() ==> *final(self) == old(self).after_prevote_quorum(
                old(self).current_round->0.votes.proposal->0.block_hash,
            ),
            !old(self).prevote_quorum() ==> *final(self) == *old(self),
    {
        let quorum_size = self.validator_set.quorum_size();
        let proposal_block_hash = match &mut self.current_round {
            Some(r) => {
                let proposal = match &r.votes.proposal {
                    Some(p) => p.block_hash,
                    None => {
                        return;
                    },
                };
                if r.votes.has_quorum_prevotes(quorum_size, &proposal) {
                    r.set_state(RoundState::Precommit);
                    proposal
                } else {
                    return;
                }
            },
            None => {
                return;
            },
        };
        if self.locked_block.is_none() {
            self.locked_block = Some(proposal_block_hash);
            self.locked_round = Some(self.round);
        }
        self.valid_block = Some(proposal_block_hash);
        self.valid_round = Some(self.round);
    }

    fn check_precommit_quorum(&mut self)
        requires
            old(self).wf(),
        ensures
            final(self).wf(),
            old(self).precommit_quorum() ==> *final(self) == old(self).with_round_state(RoundState::Finalized),
            !old(self).precommit_quorum() ==> *final(self) == *old(self),
    {
        let quorum_size = self.validator_set.quorum_size();
        let reached = match &self.current_round {
            Some(r) => match &r.votes.proposal {
                Some(p) => r.votes.has_quorum_precommits(quorum_size, &p.block_hash),
                None => false,
            },
            None => false,
        };
        if reached {
            if let Some(ref mut r) = self.current_round {
                r.set_state(RoundState::Finalized);
            }
        }
    }

    /// Whether the current round is finalized.
    pub fn has_finality(&self) -> (r: bool)
        ensures
            r == (self.current_round matches Some(cr) && cr.state == RoundState::Finalized),
    {
        match &self.current_round {
            Some(r) => r.state == RoundState::Finalized,
            None => false,
        }
    }

    /// The hash of the current round's proposal once the round is finalized.
    pub fn get_finalized_block(&self) -> (r: Option<Hash32>)
        ensures
            r == (if self.current_round matches Some(cr) && cr.state == RoundState::Finalized
                && cr.votes.proposal is Some {
                Some(self.current_round->0.votes.proposal->0.block_hash)
            } else {
                None::<Hash32>
            }),
    {
        if self.has_finality() {
            match &self.current_round {
                Some(r) => match &r.votes.proposal {
                    Some(p) => Some(p.block_hash),
                    None => None,
                },
                None => None,
            }
        } else {
            None
        }
    }

    pub fn add_validator(&mut self, validator: ValidatorInfo)
        ensures
            final(self).validator_set@ == old(self).validator_set@.push(validator),
            final(self).validator_set.id_spec() == old(self).validator_set.id_spec(),
            final(self).height == old(self).height,
            final(self).round == old(self).round,
            final(self).current_round == old(self).current_round,
    {
        self.validator_set.add(validator);
    }

    pub fn remove_validator(&mut self, address: &Address) -> (r: Option<ValidatorInfo>)
        ensures
            final(self).height == old(self).height,
            final(self).round == old(self).round,
            final(self).current_round == old(self).current_round,
            match first_with_address(old(self).validator_set@, address.0@) {
                Some(i) => r == Some(old(self).validator_set@[i]) && final(self).validator_set@
                    == old(self).validator_set@.remove(i),
                None => r is None && final(self).validator_set@ == old(self).validator_set@,
            },
    {
        self.validator_set.remove(address)
    }

    /// Sets the stake of the first validator with `address`, if there is one.
    pub fn update_validator_stake(&mut self, address: &Address, new_stake: u128)
        ensures
            final(self).height == old(self).height,
            final(self).round == old(self).round,
            final(self).current_round == old(self).current_round,
            match first_with_address(old(self).validator_set@, address.0@) {
                Some(i) => final(self).validator_set@ == old(self).validator_set@.update(
                    i,
                    ValidatorInfo { stake: new_stake, ..old(self).validator_set@[i] },
                ),
                None => final(self).validator_set@ == old(self).validator_set@,
            },
    {
        if let Some(validator) = self.validator_set.get_mut(address) {
            validator.stake = new_stake;
        }
    }

    pub fn quorum_size(&self) -> (r: u32)
        requires
            self.wf(),
        ensures
            r == quorum_len(self.validator_set@),
    {
        self.validator_set.quorum_size()
    }

    pub fn validator_count(&self) -> (r: usize)
        ensures
            r == self.validator_set@.len(),
    {
        self.validator_set.len()
    }

    /// Moves to the next height and starts its round 0.
    pub fn start_next_height(&mut self)
        requires
            old(self).wf(),
            old(self).height < u64::MAX,
        ensures
            final(self).wf(),
            final(self).height == old(self).height + 1,
            final(self).round == 0,
            final(self).locked_block is None && final(self).locked_round is None,
            final(self).valid_block is None && final(self).valid_round is None,
            final(self).validator_set == old(self).validator_set,
            final(self).current_round matches Some(r) && r.height == final(self).height && r.round == 0
                && r.state == RoundState::Propose && r.votes.proposal is None,
    {
        self.height = self.height + 1;
        self.round = 0;
        self.locked_block = None;
        self.locked_round = None;
        self.valid_block = None;
        self.valid_round = None;
        self.start_new_round(self.height, self.round);
    }
}

impl Default for ConsensusEngine {
    fn default() -> (r: Self)
        ensures
            r.wf(),
            r.height == 0,
            r.round == 0,
            r.validator_set@.len() == 0,
            r.current_round is None,
    {
        ConsensusEngine::new()
    }
}

} // verus!
