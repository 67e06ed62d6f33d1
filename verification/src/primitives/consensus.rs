//! Consensus records: validators and authority sets, BFT votes and rounds,
//! commits and finality signatures, validator set changes, rankings,
//! slashing and performance.

use vstd::prelude::*;
use crate::bytes::bytes32_eq;
use crate::kernel::{Address, Hash32};
use crate::primitives::api::addr_in;

verus! {

#[derive(Clone, Debug)]
pub struct Validator {
    pub account_id: Address,
    pub stake: u128,
    pub commission: u8,
    pub active: bool,
    pub jailed: bool,
    pub metadata: ValidatorMetadata,
}

impl Validator {
    /// An active, unjailed validator without commission or metadata.
    pub fn new(account_id: Address, stake: u128) -> (r: Self)
        ensures
            r.account_id == account_id && r.stake == stake && r.commission == 0,
            r.active && !r.jailed,
            r.metadata.name@.len() == 0 && r.metadata.website@.len() == 0 && r.metadata.contact@.len() == 0,
    {
        Validator { account_id, stake, commission: 0, active: true, jailed: false, metadata: ValidatorMetadata::default() }
    }
}

#[derive(Clone, Debug)]
pub struct ValidatorMetadata {
    pub name: String,
    pub website: String,
    pub contact: String,
}

impl Default for ValidatorMetadata {
    fn default() -> (r: Self)
        ensures
            r.name@.len() == 0 && r.website@.len() == 0 && r.contact@.len() == 0,
    {
        ValidatorMetadata { name: String::new(), website: String::new(), contact: String::new() }
    }
}

#[derive(Clone, Copy, Debug)]
pub struct Authority {
    pub address: Address,
    pub weight: u64,
    pub enabled: bool,
}

#[derive(Clone, Debug)]
pub struct AuthoritySet {
    pub authorities: Vec<Authority>,
    pub set_id: u64,
}

/// The authorities other than `a`.
pub open spec fn without_authority(s: Seq<Authority>, a: Address) -> Seq<Authority>
    decreases s.len(),
{
    if s.len() == 0 {
        s
    } else {
        without_authority(s.drop_last(), a) + if s.last().address.0@ == a.0@ {
            Seq::empty()
        } else {
            seq![s.last()]
        }
    }
}

impl AuthoritySet {
    pub fn new(authorities: Vec<Authority>) -> (r: Self)
        ensures
            r.authorities == authorities && r.set_id == 0,
    {
        AuthoritySet { authorities, set_id: 0 }
    }

    pub fn add_authority(&mut self, authority: Authority)
        ensures
            final(self).authorities@ == old(self).authorities@.push(authority),
            final(self).set_id == old(self).set_id,
    {
        self.authorities.push(authority);
    }

    /// Drops every authority at `address`.
    pub fn remove_authority(&mut self, address: &Address)
        ensures
            final(self).authorities@ == without_authority(old(self).authorities@, *address),
            final(self).set_id == old(self).set_id,
    {
        let mut kept: Vec<Authority> = Vec::new();
        let mut i: usize = 0;
        while i < self.authorities.len()
            invariant
                i <= self.authorities@.len(),
                self.authorities@ == old(self).authorities@,
                kept@ == without_authority(self.authorities@.take(i as int), *address),
            decreases self.authorities@.len() - i,
        {
            proof {
                assert(self.authorities@.take(i + 1).drop_last() =~= self.authorities@.take(i as int));
            }
            let a = self.authorities[i];
            if !bytes32_eq(&a.address.0, &address.0) {
                kept.push(a);
            }
            assert(kept@ =~= without_authority(self.authorities@.take(i + 1), *address));
            i = i + 1;
        }
        assert(self.authorities@.take(i as int) =~= self.authorities@);
        self.authorities = kept;
    }
}

#[derive(Clone, Copy, Debug, PartialEq, Eq, Structural)]
pub enum ConsensusVote {
    Yes,
    No,
}

/// More than two thirds of `total`.
pub open spec fn quorum_of(total: u32) -> int {
    (total * 2) / 3 + 1
}

#[derive(Clone, Debug)]
pub struct ConsensusCommit {
    pub height: u64,
    pub round: u64,
    pub block_hash: Hash32,
    pub validator_addresses: Vec<Address>,
    pub signature_threshold: u32,
}

impl ConsensusCommit {
    pub fn new(height: u64, round: u64, block_hash: Hash32) -> (r: Self)
        ensures
            r.height == height && r.round == round && r.block_hash == block_hash,
            r.validator_addresses@.len() == 0 && r.signature_threshold == 0,
    {
        ConsensusCommit { height, round, block_hash, validator_addresses: Vec::new(), signature_threshold: 0 }
    }

    pub fn add_signer(&mut self, address: Address)
        ensures
            final(self).validator_addresses@ == old(self).validator_addresses@.push(address),
            final(self).height == old(self).height && final(self).round == old(self).round,
            final(self).block_hash == old(self).block_hash,
            final(self).signature_threshold == old(self).signature_threshold,
    {
        self.validator_addresses.push(address);
    }

    /// Whether more than two thirds of `total_validators` signed (the count
    /// of signers cut to 32 bits).
    pub fn has_quorum(&self, total_validators: u32) -> (r: bool)
        requires
            total_validators * 2 <= u32::MAX,
        ensures
            r == (self.validator_addresses@.len() as u32 >= quorum_of(total_validators)),
    {
        let quorum = (total_validators * 2) / 3 + 1;
        self.validator_addresses.len() as u32 >= quorum
    }
}

#[derive(Clone, Copy, Debug)]
pub struct VoteMessage {
    pub height: u64,
    pub round: u64,
    pub block_id: Option<Hash32>,
    pub voter: Address,
    pub vote: ConsensusVote,
    pub timestamp: u64,
}

#[derive(Clone, Copy, Debug, PartialEq, Eq, Structural)]
pub enum BFTState {
    Propose,
    Prevote,
    Precommit,
    Finalized,
}

#[derive(Clone, Debug)]
pub struct RoundState {
    pub height: u64,
    pub round: u64,
    pub state: BFTState,
    pub proposer: Option<Address>,
    pub votes: Vec<VoteMessage>,
    pub locked_block: Option<Hash32>,
}

/// Whether some vote in `s` is by `voter`.
pub open spec fn voted(s: Seq<VoteMessage>, voter: Address) -> bool {
    exists|i: int| 0 <= i < s.len() && s[i].voter.0@ == voter.0@
}

impl RoundState {
    pub fn new(height: u64, round: u64) -> (r: Self)
        ensures
            r.height == height && r.round == round && r.state == BFTState::Propose,
            r.proposer is None && r.votes@.len() == 0 && r.locked_block is None,
    {
        RoundState { height, round, state: BFTState::Propose, proposer: None, votes: Vec::new(), locked_block: None }
    }

    /// Records `vote` unless its voter has voted already.
    pub fn add_vote(&mut self, vote: VoteMessage)
        ensures
            voted(old(self).votes@, vote.voter) ==> final(self).votes@ == old(self).votes@,
            !voted(old(self).votes@, vote.voter) ==> final(self).votes@ == old(self).votes@.push(vote),
            final(self).height == old(self).height && final(self).round == old(self).round,
            final(self).state == old(self).state && final(self).proposer == old(self).proposer,
            final(self).locked_block == old(self).locked_block,
    {
        let mut i: usize = 0;
        while i < self.votes.len()
            invariant
                i <= self.votes@.len(),
                forall|j: int| 0 <= j < i ==> self.votes@[j].voter.0@ != vote.voter.0@,
            decreases self.votes@.len() - i,
        {
            if bytes32_eq(&self.votes[i].voter.0, &vote.voter.0) {
                return;
            }
            i = i + 1;
        }
        self.votes.push(vote);
    }
}

#[derive(Clone, Copy, Debug, PartialEq, Eq, Structural)]
pub struct ConsensusParams {
    pub max_validators: u32,
    pub min_validators: u32,
    pub block_time_ms: u64,
    pub propose_timeout_ms: u64,
    pub vote_timeout_ms: u64,
    pub finality_threshold: u32,
}

impl Default for ConsensusParams {
    fn default() -> (r: Self)
        ensures
            r == (ConsensusParams {
                max_validators: 100,
                min_validators: 4,
                block_time_ms: 5000,
                propose_timeout_ms: 3000,
                vote_timeout_ms: 2000,
                finality_threshold: 2,
            }),
    {
        ConsensusParams {
            max_validators: 100,
            min_validators: 4,
            block_time_ms: 5000,
            propose_timeout_ms: 3000,
            vote_timeout_ms: 2000,
            finality_threshold: 2,
        }
    }
}

#[derive(Clone, Debug)]
pub struct ValidatorSet {
    pub validators: Vec<Validator>,
    pub total_stake: u128,
}

/// `i` is the first position of a validator with account `a`.
pub open spec fn first_validator_at(s: Seq<Validator>, a: Address, i: int) -> bool {
    0 <= i < s.len() && s[i].account_id.0@ == a.0@ && forall|j: int| 0 <= j < i ==> s[j].account_id.0@ != a.0@
}

impl ValidatorSet {
    pub fn new() -> (r: Self)
        ensures
            r.validators@.len() == 0 && r.total_stake == 0,
    {
        ValidatorSet { validators: Vec::new(), total_stake: 0 }
    }

    /// Appends `validator` and adds its stake (saturating).
    pub fn add(&mut self, validator: Validator)
        ensures
            final(self).validators@ == old(self).validators@.push(validator),
            final(self).total_stake == old(self).total_stake.saturating_add(validator.stake),
    {
        self.total_stake = self.total_stake.saturating_add(validator.stake);
        self.validators.push(validator);
    }

    /// Removes the first validator with account `address` and takes its
    /// stake off the total (saturating).
    pub fn remove(&mut self, address: &Address) -> (r: Option<Validator>)
        ensures
            r is None <==> forall|j: int| 0 <= j < old(self).validators@.len() ==> old(self).validators@[j].account_id.0@
                != address.0@,
            r is None ==> final(self).validators@ == old(self).validators@ && final(self).total_stake == old(self).total_stake,
            r matches Some(v) ==> exists|i: int|
                first_validator_at(old(self).validators@, *address, i) && v == old(self).validators@[i]
                    && final(self).validators@ == old(self).validators@.remove(i) && final(self).total_stake == old(self).total_stake.saturating_sub(v.stake),
    {
        let mut i: usize = 0;
        while i < self.validators.len()
            invariant
                i <= self.validators@.len(),
                self.validators@ == old(self).validators@,
                self.total_stake == old(self).total_stake,
                forall|j: int| 0 <= j < i ==> self.validators@[j].account_id.0@ != address.0@,
            decreases self.validators@.len() - i,
        {
            if bytes32_eq(&self.validators[i].account_id.0, &address.0) {
                let v = self.validators.remove(i);
                self.total_stake = self.total_stake.saturating_sub(v.stake);
                assert(first_validator_at(old(self).validators@, *address, i as int));
                return Some(v);
            }
            i = i + 1;
        }
        None
    }
}

impl Default for ValidatorSet {
    fn default() -> (r: Self)
        ensures
            r.validators@.len() == 0 && r.total_stake == 0,
    {
        ValidatorSet::new()
    }
}

#[derive(Clone, Copy, Debug)]
pub struct ConsensusProposal {
    pub height: u64,
    pub round: u64,
    pub block_hash: Hash32,
    pub proposer: Address,
    pub timestamp: u64,
}

impl ConsensusProposal {
    pub fn new(height: u64, round: u64, block_hash: Hash32, proposer: Address) -> (r: Self)
        ensures
            r.height == height && r.round == round && r.block_hash == block_hash && r.proposer == proposer,
            r.timestamp == 0,
    {
        ConsensusProposal { height, round, block_hash, proposer, timestamp: 0 }
    }
}

#[derive(Clone, Copy, Debug)]
pub struct Prevote {
    pub height: u64,
    pub round: u64,
    pub block_id: Option<Hash32>,
    pub voter: Address,
    pub timestamp: u64,
}

impl Prevote {
    pub fn new(height: u64, round: u64, block_id: Option<Hash32>, voter: Address) -> (r: Self)
        ensures
            r.height == height && r.round == round && r.block_id == block_id && r.voter == voter,
            r.timestamp == 0,
    {
        Prevote { height, round, block_id, voter, timestamp: 0 }
    }

    /// A vote for no block.
    pub fn is_nil(&self) -> (r: bool)
        ensures
            r == self.block_id is None,
    {
        self.block_id.is_none()
    }
}

#[derive(Clone, Copy, Debug)]
pub struct Precommit {
    pub height: u64,
    pub round: u64,
    pub block_id: Option<Hash32>,
    pub voter: Address,
    pub timestamp: u64,
}

impl Precommit {
    pub fn new(height: u64, round: u64, block_id: Option<Hash32>, voter: Address) -> (r: Self)
        ensures
            r.height == height && r.round == round && r.block_id == block_id && r.voter == voter,
            r.timestamp == 0,
    {
        Precommit { height, round, block_id, voter, timestamp: 0 }
    }

    /// A vote for no block.
    pub fn is_nil(&self) -> (r: bool)
        ensures
            r == self.block_id is None,
    {
        self.block_id.is_none()
    }
}

#[derive(Clone, Debug)]
pub struct BFTMessage {
    pub message_type: BFTMessageType,
    pub height: u64,
    pub round: u64,
    pub block_id: Option<Hash32>,
    pub sender: Address,
    pub signature: Vec<u8>,
    pub timestamp: u64,
}

#[derive(Clone, Copy, Debug, PartialEq, Eq, Structural)]
pub enum BFTMessageType {
    Proposal,
    Prevote,
    Precommit,
}

#[derive(Clone, Debug)]
pub struct EquivocationProof {
    pub round: u64,
    pub height: u64,
    pub equivocator: Address,
    pub first_message: BFTMessage,
    pub second_message: BFTMessage,
}

#[derive(Clone, Debug)]
pub struct ValidatorSignature {
    pub validator: Address,
    pub signature: Vec<u8>,
    pub block_hash: Hash32,
}

impl ValidatorSignature {
    pub fn new(validator: Address, signature: Vec<u8>, block_hash: Hash32) -> (r: Self)
        ensures
            r.validator == validator && r.signature == signature && r.block_hash == block_hash,
    {
        ValidatorSignature { validator, signature, block_hash }
    }
}

#[derive(Clone, Debug)]
pub struct FinalitySignature {
    pub block_hash: Hash32,
    pub block_number: u64,
    pub validator_set_id: u64,
    pub signatures: Vec<ValidatorSignature>,
    pub is_commit: bool,
}

impl FinalitySignature {
    pub fn new(block_hash: Hash32, block_number: u64, validator_set_id: u64) -> (r: Self)
        ensures
            r.block_hash == block_hash && r.block_number == block_number,
            r.validator_set_id == validator_set_id && r.signatures@.len() == 0 && !r.is_commit,
    {
        FinalitySignature { block_hash, block_number, validator_set_id, signatures: Vec::new(), is_commit: false }
    }

    /// Keeps `signature` when it signs this block.
    pub fn add_signature(&mut self, signature: ValidatorSignature)
        ensures
            signature.block_hash.0@ == old(self).block_hash.0@ ==> final(self).signatures@ == old(self).signatures@.push(signature),
            signature.block_hash.0@ != old(self).block_hash.0@ ==> final(self).signatures@ == old(self).signatures@,
            final(self).block_hash == old(self).block_hash && final(self).block_number == old(self).block_number,
            final(self).validator_set_id == old(self).validator_set_id && final(self).is_commit == old(self).is_commit,
    {
        if bytes32_eq(&signature.block_hash.0, &self.block_hash.0) {
            self.signatures.push(signature);
        }
    }

    /// Whether more than two thirds of `total_validators` signed.
    pub fn quorum_reached(&self, total_validators: u32) -> (r: bool)
        requires
            total_validators * 2 <= u32::MAX,
        ensures
            r == (self.signatures@.len() as u32 >= quorum_of(total_validators)),
    {
        let quorum = (total_validators * 2) / 3 + 1;
        self.signatures.len() as u32 >= quorum
    }
}

#[derive(Clone, Debug)]
pub struct ValidatorSetChange {
    pub set_id: u64,
    pub added: Vec<Address>,
    pub removed: Vec<Address>,
    pub updated_stake: Vec<(Address, u128)>,
    pub activation_block: u64,
}

impl ValidatorSetChange {
    pub fn new(set_id: u64, activation_block: u64) -> (r: Self)
        ensures
            r.set_id == set_id && r.activation_block == activation_block,
            r.added@.len() == 0 && r.removed@.len() == 0 && r.updated_stake@.len() == 0,
    {
        ValidatorSetChange { set_id, added: Vec::new(), removed: Vec::new(), updated_stake: Vec::new(), activation_block }
    }

    /// Notes `validator` as added, once.
    pub fn add_validator(&mut self, validator: Address)
        ensures
            addr_in(old(self).added@, validator) ==> final(self).added@ == old(self).added@,
            !addr_in(old(self).added@, validator) ==> final(self).added@ == old(self).added@.push(validator),
            final(self).removed == old(self).removed && final(self).updated_stake == old(self).updated_stake,
            final(self).set_id == old(self).set_id && final(self).activation_block == old(self).activation_block,
    {
        if crate::primitives::api::position_of_address(&self.added, &validator).is_none() {
            self.added.push(validator);
        }
    }

    /// Notes `validator` as removed, once.
    pub fn remove_validator(&mut self, validator: Address)
        ensures
            addr_in(old(self).removed@, validator) ==> final(self).removed@ == old(self).removed@,
            !addr_in(old(self).removed@, validator) ==> final(self).removed@ == old(self).removed@.push(validator),
            final(self).added == old(self).added && final(self).updated_stake == old(self).updated_stake,
            final(self).set_id == old(self).set_id && final(self).activation_block == old(self).activation_block,
    {
        if crate::primitives::api::position_of_address(&self.removed, &validator).is_none() {
            self.removed.push(validator);
        }
    }
}

#[derive(Clone, Debug)]
pub struct ConsensusRound {
    pub height: u64,
    pub round: u64,
    pub proposer: Address,
    pub state: ConsensusRoundState,
    pub locked_value: Option<Hash32>,
    pub locked_round: Option<u64>,
    pub valid_value: Option<Hash32>,
    pub valid_round: Option<u64>,
    pub prevotes: Vec<Prevote>,
    pub precommits: Vec<Precommit>,
    pub proposal: Option<ConsensusProposal>,
}

#[derive(Clone, Copy, Debug, PartialEq, Eq, Structural)]
pub enum ConsensusRoundState {
    Propose,
    Prevote,
    Precommit,
    Finalized,
}

/// Whether a vote is for the block `h`.
pub open spec fn votes_for(block_id: Option<Hash32>, h: Hash32) -> bool {
    match block_id {
        Some(b) => b.0@ == h.0@,
        None => false,
    }
}

/// The prevotes for `h`.
pub open spec fn prevotes_for(s: Seq<Prevote>, h: Hash32) -> nat
    decreases s.len(),
{
    if s.len() == 0 {
        0
    } else {
        prevotes_for(s.drop_last(), h) + if votes_for(s.last().block_id, h) {
            1nat
        } else {
            0nat
        }
    }
}

/// The precommits for `h`.
pub open spec fn precommits_for(s: Seq<Precommit>, h: Hash32) -> nat
    decreases s.len(),
{
    if s.len() == 0 {
        0
    } else {
        precommits_for(s.drop_last(), h) + if votes_for(s.last().block_id, h) {
            1nat
        } else {
            0nat
        }
    }
}

proof fn lemma_prevotes_for_bound(s: Seq<Prevote>, h: Hash32)
    ensures
        prevotes_for(s, h) <= s.len(),
    decreases s.len(),
{
    if s.len() > 0 {
        lemma_prevotes_for_bound(s.drop_last(), h);
    }
}

proof fn lemma_precommits_for_bound(s: Seq<Precommit>, h: Hash32)
    ensures
        precommits_for(s, h) <= s.len(),
    decreases s.len(),
{
    if s.len() > 0 {
        lemma_precommits_for_bound(s.drop_last(), h);
    }
}

fn is_vote_for(block_id: &Option<Hash32>, h: &Hash32) -> (r: bool)
    ensures
        r == votes_for(*block_id, *h),
{
    match block_id {
        Some(b) => bytes32_eq(&b.0, &h.0),
        None => false,
    }
}

impl ConsensusRound {
    pub fn new(height: u64, round: u64, proposer: Address) -> (r: Self)
        ensures
            r.height == height && r.round == round && r.proposer == proposer,
            r.state == ConsensusRoundState::Propose,
            r.locked_value is None && r.locked_round is None && r.valid_value is None && r.valid_round is None,
            r.prevotes@.len() == 0 && r.precommits@.len() == 0 && r.proposal is None,
    {
        ConsensusRound {
            height,
            round,
            proposer,
            state: ConsensusRoundState::Propose,
            locked_value: None,
            locked_round: None,
            valid_value: None,
            valid_round: None,
            prevotes: Vec::new(),
            precommits: Vec::new(),
            proposal: None,
        }
    }

    /// Records `prevote` unless its voter has prevoted already.
    pub fn add_prevote(&mut self, prevote: Prevote)
        ensures
            (exists|i: int| 0 <= i < old(self).prevotes@.len() && old(self).prevotes@[i].voter.0@ == prevote.voter.0@)
                ==> final(self).prevotes@ == old(self).prevotes@,
            !(exists|i: int| 0 <= i < old(self).prevotes@.len() && old(self).prevotes@[i].voter.0@ == prevote.voter.0@)
                ==> final(self).prevotes@ == old(self).prevotes@.push(prevote),
            final(self).precommits == old(self).precommits,
            final(self).height == old(self).height && final(self).round == old(self).round,
            final(self).state == old(self).state,
    {
        let mut i: usize = 0;
        while i < self.prevotes.len()
            invariant
                i <= self.prevotes@.len(),
                forall|j: int| 0 <= j < i ==> self.prevotes@[j].voter.0@ != prevote.voter.0@,
            decreases self.prevotes@.len() - i,
        {
            if bytes32_eq(&self.prevotes[i].voter.0, &prevote.voter.0) {
                return;
            }
            i = i + 1;
        }
        self.prevotes.push(prevote);
    }

    /// Records `precommit` unless its voter has precommitted already.
    pub fn add_precommit(&mut self, precommit: Precommit)
        ensures
            (exists|i: int|
                0 <= i < old(self).precommits@.len() && old(self).precommits@[i].voter.0@ == precommit.voter.0@)
                ==> final(self).precommits@ == old(self).precommits@,
            !(exists|i: int|
                0 <= i < old(self).precommits@.len() && old(self).precommits@[i].voter.0@ == precommit.voter.0@)
                ==> final(self).precommits@ == old(self).precommits@.push(precommit),
            final(self).prevotes == old(self).prevotes,
            final(self).height == old(self).height && final(self).round == old(self).round,
            final(self).state == old(self).state,
    {
        let mut i: usize = 0;
        while i < self.precommits.len()
            invariant
                i <= self.precommits@.len(),
                forall|j: int| 0 <= j < i ==> self.precommits@[j].voter.0@ != precommit.voter.0@,
            decreases self.precommits@.len() - i,
        {
            if bytes32_eq(&self.precommits[i].voter.0, &precommit.voter.0) {
                return;
            }
            i = i + 1;
        }
        self.precommits.push(precommit);
    }

    /// The number of prevotes for `block_hash`, cut to 32 bits.
    pub fn prevote_count(&self, block_hash: &Hash32) -> (r: u32)
        ensures
            r == prevotes_for(self.prevotes@, *block_hash) as u32,
    {
        let mut n: usize = 0;
        let mut i: usize = 0;
        while i < self.prevotes.len()
            invariant
                i <= self.prevotes@.len(),
                n == prevotes_for(self.prevotes@.take(i as int), *block_hash),
            decreases self.prevotes@.len() - i,
        {
            proof {
                assert(self.prevotes@.take(i + 1).drop_last() =~= self.prevotes@.take(i as int));
                lemma_prevotes_for_bound(self.prevotes@.take(i as int), *block_hash);
            }
            if is_vote_for(&self.prevotes[i].block_id, block_hash) {
                n = n + 1;
            }
            i = i + 1;
        }
        assert(self.prevotes@.take(i as int) =~= self.prevotes@);
        n as u32
    }

    /// The number of precommits for `block_hash`, cut to 32 bits.
    pub fn precommit_count(&self, block_hash: &Hash32) -> (r: u32)
        ensures
            r == precommits_for(self.precommits@, *block_hash) as u32,
    {
        let mut n: usize = 0;
        let mut i: usize = 0;
        while i < self.precommits.len()
            invariant
                i <= self.precommits@.len(),
                n == precommits_for(self.precommits@.take(i as int), *block_hash),
            decreases self.precommits@.len() - i,
        {
            proof {
                assert(self.precommits@.take(i + 1).drop_last() =~= self.precommits@.take(i as int));
                lemma_precommits_for_bound(self.precommits@.take(i as int), *block_hash);
            }
            if is_vote_for(&self.precommits[i].block_id, block_hash) {
                n = n + 1;
            }
            i = i + 1;
        }
        assert(self.precommits@.take(i as int) =~= self.precommits@);
        n as u32
    }
}

/// When each stage of a round times out.
#[derive(Clone, Copy, Debug, PartialEq, Eq, Structural)]
pub struct ConsensusTimestamps {
    pub propose_start: u64,
    pub propose_end: u64,
    pub prevote_end: u64,
    pub precommit_end: u64,
}

impl ConsensusTimestamps {
    pub fn new(propose_timeout_ms: u64, prevote_timeout_ms: u64, precommit_timeout_ms: u64) -> (r: Self)
        requires
            propose_timeout_ms + prevote_timeout_ms + precommit_timeout_ms <= u64::MAX,
        ensures
            r.propose_start == 0,
            r.propose_end == propose_timeout_ms,
            r.prevote_end == propose_timeout_ms + prevote_timeout_ms,
            r.precommit_end == propose_timeout_ms + prevote_timeout_ms + precommit_timeout_ms,
    {
        ConsensusTimestamps {
            propose_start: 0,
            propose_end: propose_timeout_ms,
            prevote_end: propose_timeout_ms + prevote_timeout_ms,
            precommit_end: propose_timeout_ms + prevote_timeout_ms + precommit_timeout_ms,
        }
    }

    /// Whether `stage` has timed out at `current_time`; a finalized round
    /// always has.
    pub fn is_expired(&self, current_time: u64, stage: ConsensusRoundState) -> (r: bool)
        ensures
            r == match stage {
                ConsensusRoundState::Propose => current_time >= self.propose_end,
                ConsensusRoundState::Prevote => current_time >= self.prevote_end,
                ConsensusRoundState::Precommit => current_time >= self.precommit_end,
                ConsensusRoundState::Finalized => true,
            },
    {
        match stage {
            ConsensusRoundState::Propose => current_time >= self.propose_end,
            ConsensusRoundState::Prevote => current_time >= self.prevote_end,
            ConsensusRoundState::Precommit => current_time >= self.precommit_end,
            ConsensusRoundState::Finalized => true,
        }
    }
}

/// Stages time out in order: a later stage expired means the earlier ones
/// have too.
pub proof fn lemma_timeouts_ordered(t: ConsensusTimestamps, now: u64)
    requires
        t.propose_end <= t.prevote_end <= t.precommit_end,
        now >= t.precommit_end,
    ensures
        now >= t.prevote_end,
        now >= t.propose_end,
{
}

#[derive(Clone, Copy, Debug, PartialEq, Eq, Structural)]
pub enum ValidatorStatus {
    Active,
    Inactive,
    Pending,
    Jailed,
    Slashed,
}

#[derive(Clone, Copy, Debug, PartialEq, Eq, Structural)]
pub enum SlashingOffense {
    DoubleVote,
    Equivocation,
    Unresponsive,
    InvalidBlock,
    InvalidVote,
}

#[derive(Clone, Debug)]
pub struct SlashingInfo {
    pub validator: Address,
    pub offense_type: SlashingOffense,
    pub slash_amount: u128,
    pub evidence: Vec<u8>,
    pub block_number: u64,
}

#[derive(Clone, Copy, Debug)]
pub struct ValidatorPerf {
    pub account_id: Address,
    pub blocks_proposed: u64,
    pub blocks_authored: u64,
    pub prevotes_cast: u64,
    pub precommits_cast: u64,
    pub missed_votes: u64,
    pub offline_events: u64,
    pub slashed: bool,
}

impl ValidatorPerf {
    pub fn new(account_id: Address) -> (r: Self)
        ensures
            r.account_id == account_id && r.blocks_proposed == 0 && r.blocks_authored == 0,
            r.prevotes_cast == 0 && r.precommits_cast == 0 && r.missed_votes == 0,
            r.offline_events == 0 && !r.slashed,
    {
        ValidatorPerf {
            account_id,
            blocks_proposed: 0,
            blocks_authored: 0,
            prevotes_cast: 0,
            precommits_cast: 0,
            missed_votes: 0,
            offline_events: 0,
            slashed: false,
        }
    }

    /// The share of votes cast out of votes due, in percent; 100 before any
    /// vote was due.
    pub fn uptime_percentage(&self) -> (r: u32)
        requires
            self.prevotes_cast + self.precommits_cast + self.missed_votes <= u64::MAX,
            (self.prevotes_cast + self.precommits_cast) * 100 <= u64::MAX,
        ensures
            ({
                let total = self.prevotes_cast + self.precommits_cast + self.missed_votes;
                r == if total == 0 {
                    100
                } else {
                    (((self.prevotes_cast + self.precommits_cast) * 100) / total) as u32
                }
            }),
    {
        let total = self.prevotes_cast + self.precommits_cast + self.missed_votes;
        if total == 0 {
            return 100;
        }
        ((self.prevotes_cast + self.precommits_cast) * 100 / total) as u32
    }
}

/// Uptime never exceeds 100 percent.
pub proof fn lemma_uptime_at_most_100(cast: int, missed: int)
    requires
        cast >= 0,
        missed >= 0,
        cast + missed > 0,
    ensures
        (cast * 100) / (cast + missed) <= 100,
{
    assert((cast * 100) / (cast + missed) <= 100) by (nonlinear_arith)
        requires
            cast >= 0,
            missed >= 0,
            cast + missed > 0,
    ;
}

#[derive(Clone, Debug)]
pub struct ConsensusState {
    pub height: u64,
    pub round: u64,
    pub locked_block: Option<Hash32>,
    pub valid_block: Option<Hash32>,
    pub last_commit: Option<FinalitySignature>,
    pub proposer: Option<Address>,
}

impl ConsensusState {
    pub fn new() -> (r: Self)
        ensures
            r.height == 0 && r.round == 0 && r.locked_block is None && r.valid_block is None,
            r.last_commit is None && r.proposer is None,
    {
        ConsensusState { height: 0, round: 0, locked_block: None, valid_block: None, last_commit: None, proposer: None }
    }
}

impl Default for ConsensusState {
    fn default() -> (r: Self)
        ensures
            r.height == 0 && r.round == 0 && r.locked_block is None && r.valid_block is None,
            r.last_commit is None && r.proposer is None,
    {
        ConsensusState::new()
    }
}

/// A validator's place in the ranking by stake.
#[derive(Clone, Copy, Debug)]
pub struct ValidatorRanking {
    pub rank: u32,
    pub account_id: Address,
    pub stake: u128,
    pub commission: u8,
    pub active: bool,
}

/// Whether a validator takes part in the ranking: active and not jailed.
pub open spec fn eligible(v: Validator) -> bool {
    v.active && !v.jailed
}

/// The eligible validators, in their order.
pub open spec fn eligible_seq(vs: Seq<Validator>) -> Seq<Validator>
    decreases vs.len(),
{
    if vs.len() == 0 {
        Seq::empty()
    } else {
        eligible_seq(vs.drop_last()) + if eligible(vs.last()) {
            seq![vs.last()]
        } else {
            Seq::empty()
        }
    }
}

proof fn lemma_eligible_len(vs: Seq<Validator>)
    ensures
        eligible_seq(vs).len() <= vs.len(),
    decreases vs.len(),
{
    if vs.len() > 0 {
        lemma_eligible_len(vs.drop_last());
    }
}

/// `r` describes validator `v`.
pub open spec fn describes(r: ValidatorRanking, v: Validator) -> bool {
    r.account_id == v.account_id && r.stake == v.stake && r.commission == v.commission && r.active == v.active
}

/// `p` lists each of `0..n` once.
pub open spec fn is_permutation(p: Seq<int>, n: int) -> bool {
    &&& p.len() == n
    &&& forall|a: int| 0 <= a < n ==> 0 <= #[trigger] p[a] < n
    &&& forall|a: int, b: int| 0 <= a < b < n ==> #[trigger] p[a] != #[trigger] p[b]
}

/// `r` ranks the validators `e`: it is `e` reordered by the positions `p`,
/// by decreasing stake, equal stakes keeping their order in `e`.
pub open spec fn ranks_by_stake(r: Seq<ValidatorRanking>, e: Seq<Validator>, p: Seq<int>) -> bool {
    &&& r.len() == e.len()
    &&& is_permutation(p, e.len() as int)
    &&& forall|i: int| 0 <= i < r.len() ==> describes(#[trigger] r[i], e[p[i]])
    &&& forall|a: int, b: int| 0 <= a < b < r.len() ==> (#[trigger] r[a]).stake >= (#[trigger] r[b]).stake
    &&& forall|a: int, b: int| 0 <= a < b < r.len() && (#[trigger] r[a]).stake == (#[trigger] r[b]).stake ==> p[a] < p[b]
}

impl ValidatorRanking {
    /// The active, unjailed validators by decreasing stake (a stable order),
    /// ranked from 1.
    pub fn rank(validators: &[Validator]) -> (r: Vec<Self>)
        requires
            validators@.len() < u32::MAX,
        ensures
            exists|p: Seq<int>| ranks_by_stake(r@, eligible_seq(validators@), p),
            forall|i: int| 0 <= i < r@.len() ==> (#[trigger] r@[i]).rank == i + 1,
    {
        let ghost e = eligible_seq(validators@);
        let mut chosen: Vec<ValidatorRanking> = Vec::new();
        let mut i: usize = 0;
        while i < validators.len()
            invariant
                i <= validators@.len(),
                chosen@.len() == eligible_seq(validators@.take(i as int)).len(),
                forall|t: int| 0 <= t < chosen@.len() ==> describes(
                    #[trigger] chosen@[t],
                    eligible_seq(validators@.take(i as int))[t],
                ),
            decreases validators@.len() - i,
        {
            proof {
                assert(validators@.take(i + 1).drop_last() =~= validators@.take(i as int));
            }
            let v = &validators[i];
            if v.active && !v.jailed {
                chosen.push(
                    ValidatorRanking { rank: 0, account_id: v.account_id, stake: v.stake, commission: v.commission, active: v.active },
                );
            }
            i = i + 1;
        }
        assert(validators@.take(i as int) =~= validators@);
        let mut ranked: Vec<ValidatorRanking> = Vec::new();
        let ghost mut p: Seq<int> = Seq::empty();
        let mut k: usize = 0;
        while k < chosen.len()
            invariant
                chosen@.len() == e.len(),
                forall|t: int| 0 <= t < chosen@.len() ==> describes(#[trigger] chosen@[t], e[t]),
                k <= chosen@.len(),
                ranked@.len() == k,
                p.len() == k,
                forall|a: int| 0 <= a < k ==> 0 <= #[trigger] p[a] < k,
                forall|a: int, b: int| 0 <= a < b < k ==> #[trigger] p[a] != #[trigger] p[b],
                forall|t: int| 0 <= t < k ==> describes(#[trigger] ranked@[t], e[p[t]]),
                forall|a: int, b: int| 0 <= a < b < k ==> (#[trigger] ranked@[a]).stake >= (#[trigger] ranked@[b]).stake,
                forall|a: int, b: int|
                    0 <= a < b < k && (#[trigger] ranked@[a]).stake == (#[trigger] ranked@[b]).stake ==> p[a] < p[b],
            decreases chosen@.len() - k,
        {
            let item = chosen[k];
            let mut pos: usize = 0;
            while pos < ranked.len() && ranked[pos].stake >= item.stake
                invariant
                    pos <= ranked@.len(),
                    forall|t: int| 0 <= t < pos ==> (#[trigger] ranked@[t]).stake >= item.stake,
                decreases ranked@.len() - pos,
            {
                pos = pos + 1;
            }
            let ghost before = ranked@;
            let ghost pb = p;
            proof {
                assert forall|t: int| pos <= t < before.len() implies (#[trigger] before[t]).stake < item.stake by {
                    if t > pos {
                        assert(before[pos as int].stake >= before[t].stake);
                    }
                }
            }
            ranked.insert(pos, item);
            proof {
                p = pb.insert(pos as int, k as int);
                assert(ranked@ == before.insert(pos as int, item));
                assert forall|t: int| 0 <= t < k + 1 implies describes(#[trigger] ranked@[t], e[p[t]]) by {
                    if t < pos {
                        assert(ranked@[t] == before[t] && p[t] == pb[t]);
                    } else if t > pos {
                        assert(ranked@[t] == before[t - 1] && p[t] == pb[t - 1]);
                    }
                }
                assert forall|a: int| 0 <= a < k + 1 implies 0 <= #[trigger] p[a] < k + 1 by {
                    if a < pos {
                        assert(p[a] == pb[a]);
                    } else if a > pos {
                        assert(p[a] == pb[a - 1]);
                    }
                }
                assert forall|a: int, b: int| 0 <= a < b < k + 1 implies #[trigger] p[a] != #[trigger] p[b] by {
                    if a < pos && b < pos {
                        assert(p[a] == pb[a] && p[b] == pb[b]);
                    } else if a < pos && b == pos {
                        assert(p[a] == pb[a]);
                    } else if a < pos && b > pos {
                        assert(p[a] == pb[a] && p[b] == pb[b - 1]);
                    } else if a == pos {
                        assert(p[b] == pb[b - 1]);
                    } else {
                        assert(p[a] == pb[a - 1] && p[b] == pb[b - 1]);
                    }
                }
                assert forall|a: int, b: int| 0 <= a < b < k + 1 implies (#[trigger] ranked@[a]).stake
                    >= (#[trigger] ranked@[b]).stake by {
                    if a < pos && b < pos {
                        assert(ranked@[a] == before[a] && ranked@[b] == before[b]);
                    } else if a < pos && b == pos {
                        assert(ranked@[a] == before[a]);
                    } else if a < pos && b > pos {
                        assert(ranked@[a] == before[a] && ranked@[b] == before[b - 1]);
                    } else if a == pos {
                        assert(ranked@[b] == before[b - 1]);
                    } else {
                        assert(ranked@[a] == before[a - 1] && ranked@[b] == before[b - 1]);
                    }
                }
                assert forall|a: int, b: int|
                    0 <= a < b < k + 1 && (#[trigger] ranked@[a]).stake == (#[trigger] ranked@[b]).stake implies p[a]
                    < p[b] by {
                    if a < pos && b < pos {
                        assert(ranked@[a] == before[a] && ranked@[b] == before[b]);
                        assert(p[a] == pb[a] && p[b] == pb[b]);
                    } else if a < pos && b == pos {
                        assert(p[a] == pb[a]);
                    } else if a < pos && b > pos {
                        assert(ranked@[a] == before[a] && ranked@[b] == before[b - 1]);
                        assert(p[a] == pb[a] && p[b] == pb[b - 1]);
                    } else if a == pos {
                        assert(ranked@[b] == before[b - 1]);
                    } else {
                        assert(ranked@[a] == before[a - 1] && ranked@[b] == before[b - 1]);
                        assert(p[a] == pb[a - 1] && p[b] == pb[b - 1]);
                    }
                }
            }
            k = k + 1;
        }
        let ghost sorted = ranked@;
        proof {
            lemma_eligible_len(validators@);
        }
        let mut j: usize = 0;
        while j < ranked.len()
            invariant
                j <= ranked@.len(),
                ranked@.len() == sorted.len(),
                sorted.len() < u32::MAX,
                forall|t: int|
                    0 <= t < ranked@.len() ==> (#[trigger] ranked@[t]).account_id == sorted[t].account_id
                        && ranked@[t].stake == sorted[t].stake && ranked@[t].commission == sorted[t].commission
                        && ranked@[t].active == sorted[t].active,
                forall|t: int| 0 <= t < j ==> (#[trigger] ranked@[t]).rank == t + 1,
            decreases ranked@.len() - j,
        {
            let mut item = ranked[j];
            item.rank = j as u32 + 1;
            ranked.set(j, item);
            j = j + 1;
        }
        proof {
            assert(ranks_by_stake(ranked@, e, p)) by {
                assert forall|t: int| 0 <= t < ranked@.len() implies describes(#[trigger] ranked@[t], e[p[t]]) by {
                    assert(describes(sorted[t], e[p[t]]));
                    assert(ranked@[t].account_id == sorted[t].account_id);
                }
                assert forall|a: int, b: int| 0 <= a < b < ranked@.len() implies (#[trigger] ranked@[a]).stake
                    >= (#[trigger] ranked@[b]).stake by {
                    assert(sorted[a].stake >= sorted[b].stake);
                }
                assert forall|a: int, b: int|
                    0 <= a < b < ranked@.len() && (#[trigger] ranked@[a]).stake == (#[trigger] ranked@[b]).stake implies p[a]
                    < p[b] by {
                    assert(sorted[a].stake == sorted[b].stake);
                }
            }
        }
        ranked
    }
}

} // verus!
