//! On-chain governance: proposals, voting with delegated power, timelocks
//! and emergency powers.

use vstd::prelude::*;
use crate::bytes::{push_all, push_le, le_bytes};
use crate::digest::{sha256, sha256_spec};
use crate::kernel::{Address, Hash32};
use crate::table::{Table, TableKey};

verus! {

pub const DEFAULT_VOTING_PERIOD_BLOCKS: u64 = 10080;

pub const DEFAULT_TIMELOCK_PERIOD_BLOCKS: u64 = 10080;

pub const DEFAULT_PROPOSAL_BOND: u128 = 1000;

pub const DEFAULT_EMERGENCY_DURATION_BLOCKS: u64 = 14400;

/// What a proposal asks for.
#[derive(Clone, Copy, Debug, PartialEq, Eq, Structural)]
pub enum ProposalType {
    ParameterChange,
    RuntimeUpgrade,
    ModelGovernance,
    Treasury,
    Emergency,
    Slash,
    Upgrade,
}

/// Turnout and approval, in percent, that a proposal needs.
#[derive(Clone, Copy, Debug, PartialEq, Eq, Structural)]
pub struct VotingThreshold {
    pub quorum: u32,
    pub approval: u32,
}

/// The threshold of each kind of proposal.
pub open spec fn threshold_spec(t: ProposalType) -> VotingThreshold {
    match t {
        ProposalType::ParameterChange => VotingThreshold { quorum: 20, approval: 50 },
        ProposalType::RuntimeUpgrade => VotingThreshold { quorum: 40, approval: 66 },
        ProposalType::ModelGovernance => VotingThreshold { quorum: 20, approval: 50 },
        ProposalType::Treasury => VotingThreshold { quorum: 25, approval: 50 },
        ProposalType::Emergency => VotingThreshold { quorum: 50, approval: 75 },
        ProposalType::Slash => VotingThreshold { quorum: 50, approval: 75 },
        ProposalType::Upgrade => VotingThreshold { quorum: 40, approval: 66 },
    }
}

impl ProposalType {
    pub fn threshold(&self) -> (r: VotingThreshold)
        ensures
            r == threshold_spec(*self),
    {
        match self {
            ProposalType::ParameterChange => VotingThreshold::parameter_change(),
            ProposalType::RuntimeUpgrade => VotingThreshold::runtime_upgrade(),
            ProposalType::ModelGovernance => VotingThreshold::parameter_change(),
            ProposalType::Treasury => VotingThreshold::treasury(),
            ProposalType::Emergency => VotingThreshold::emergency(),
            ProposalType::Slash => VotingThreshold::constitutional(),
            ProposalType::Upgrade => VotingThreshold::runtime_upgrade(),
        }
    }
}

/// Where a proposal stands.
#[derive(Clone, Copy, Debug, PartialEq, Eq, Structural)]
pub enum ProposalStatus {
    Pending,
    Voting,
    Approved,
    Rejected,
    Executed,
    FailedExecution,
    Cancelled,
    Timelocked,
}

impl ProposalStatus {
    /// Approved, rejected, executed, failed or cancelled.
    pub fn is_finalized(&self) -> (r: bool)
        ensures
            r == (*self == ProposalStatus::Approved || *self == ProposalStatus::Rejected || *self
                == ProposalStatus::Executed || *self == ProposalStatus::FailedExecution || *self
                == ProposalStatus::Cancelled),
    {
        match self {
            ProposalStatus::Approved | ProposalStatus::Rejected | ProposalStatus::Executed
            | ProposalStatus::FailedExecution | ProposalStatus::Cancelled => true,
            _ => false,
        }
    }

    /// Voting or timelocked.
    pub fn is_active(&self) -> (r: bool)
        ensures
            r == (*self == ProposalStatus::Voting || *self == ProposalStatus::Timelocked),
    {
        match self {
            ProposalStatus::Voting | ProposalStatus::Timelocked => true,
            _ => false,
        }
    }
}

/// A voter's choice.
#[derive(Clone, Copy, Debug, PartialEq, Eq, Structural)]
pub enum VoteChoice {
    Yes,
    No,
    Abstain,
}

impl VotingThreshold {
    pub fn parameter_change() -> (r: Self)
        ensures
            r == (VotingThreshold { quorum: 20, approval: 50 }),
    {
        VotingThreshold { quorum: 20, approval: 50 }
    }

    pub fn runtime_upgrade() -> (r: Self)
        ensures
            r == (VotingThreshold { quorum: 40, approval: 66 }),
    {
        VotingThreshold { quorum: 40, approval: 66 }
    }

    pub fn treasury() -> (r: Self)
        ensures
            r == (VotingThreshold { quorum: 25, approval: 50 }),
    {
        VotingThreshold { quorum: 25, approval: 50 }
    }

    pub fn emergency() -> (r: Self)
        ensures
            r == (VotingThreshold { quorum: 50, approval: 75 }),
    {
        VotingThreshold { quorum: 50, approval: 75 }
    }

    pub fn constitutional() -> (r: Self)
        ensures
            r == (VotingThreshold { quorum: 50, approval: 75 }),
    {
        VotingThreshold { quorum: 50, approval: 75 }
    }

    /// Both the turnout and the approval reach the threshold.
    pub fn is_approved(&self, quorum_pct: u32, approval_pct: u32) -> (r: bool)
        ensures
            r == (quorum_pct >= self.quorum && approval_pct >= self.approval),
    {
        quorum_pct >= self.quorum && approval_pct >= self.approval
    }
}

/// A governance proposal with its tally.
#[derive(Clone, Debug)]
pub struct Proposal {
    pub proposal_id: Hash32,
    pub proposal_type: ProposalType,
    pub proposer: Address,
    pub payload: Vec<u8>,
    pub description: String,
    pub voting_start: u64,
    pub voting_end: u64,
    pub timelock_end: u64,
    pub status: ProposalStatus,
    pub bond_amount: u128,
    pub yes_votes: u128,
    pub no_votes: u128,
    pub abstain_votes: u128,
    pub executed_at: Option<u64>,
}

/// The bytes that identify a proposal: proposer, payload, the UTF-8
/// description and the block, little-endian.
pub open spec fn proposal_id_input(proposer: Address, payload: Seq<u8>, description: Seq<char>, block: u64) -> Seq<u8> {
    proposer.0@ + payload + vstd::utf8::encode_utf8(description) + le_bytes(block as nat, 8)
}

/// Two proposals equal in every field, the payload compared by its bytes.
pub open spec fn same_proposal(a: Proposal, b: Proposal) -> bool {
    a.payload@ == b.payload@ && a == (Proposal { payload: a.payload, ..b })
}

/// The yes, no and abstain votes added with saturation.
pub open spec fn total_votes_spec(p: Proposal) -> u128 {
    p.yes_votes.saturating_add(p.no_votes).saturating_add(p.abstain_votes)
}

/// The share of yes votes in percent; none without votes.
pub open spec fn approval_pct_spec(p: Proposal) -> Option<u32> {
    if total_votes_spec(p) == 0 {
        None
    } else {
        Some(((p.yes_votes * 100) / (total_votes_spec(p) as int)) as u32)
    }
}

/// The turnout in percent of `supply`; none for a zero supply.
pub open spec fn quorum_pct_spec(p: Proposal, supply: u128) -> Option<u32> {
    if supply == 0 {
        None
    } else {
        Some(((total_votes_spec(p) * 100) / (supply as int)) as u32)
    }
}

/// Whether the percentages of a proposal can be computed without overflow.
pub open spec fn tally_computable(p: Proposal) -> bool {
    p.yes_votes * 100 <= u128::MAX && total_votes_spec(p) * 100 <= u128::MAX
}

/// Whether a proposal reaches its kind's threshold; a missing percentage
/// counts as zero.
pub open spec fn approved_spec(p: Proposal, supply: u128) -> bool {
    let q = match quorum_pct_spec(p, supply) {
        Some(x) => x,
        None => 0u32,
    };
    let a = match approval_pct_spec(p) {
        Some(x) => x,
        None => 0u32,
    };
    q >= threshold_spec(p.proposal_type).quorum && a >= threshold_spec(p.proposal_type).approval
}

/// Whether voting on `p` is open at `block`.
pub open spec fn voting_active_spec(p: Proposal, block: u64) -> bool {
    p.status == ProposalStatus::Voting && block >= p.voting_start && block < p.voting_end
}

/// `p` with `weight` added to the tally of `choice`, saturating.
pub open spec fn with_vote(p: Proposal, choice: VoteChoice, weight: u128) -> Proposal {
    match choice {
        VoteChoice::Yes => Proposal { yes_votes: p.yes_votes.saturating_add(weight), ..p },
        VoteChoice::No => Proposal { no_votes: p.no_votes.saturating_add(weight), ..p },
        VoteChoice::Abstain => Proposal { abstain_votes: p.abstain_votes.saturating_add(weight), ..p },
    }
}

impl Proposal {
    /// A proposal in voting from `current_block`; its identifier is the
    /// SHA-256 digest of `proposal_id_input`, and the voting and timelock
    /// periods follow one another, saturating.
    pub fn new(
        proposer: Address,
        proposal_type: ProposalType,
        payload: Vec<u8>,
        description: String,
        current_block: u64,
        bond_amount: u128,
        voting_period: u64,
        timelock_period: u64,
    ) -> (r: Self)
        ensures
            r.proposal_id.0@ == sha256_spec(proposal_id_input(proposer, payload@, description@, current_block)),
            r.proposal_type == proposal_type,
            r.proposer == proposer,
            r.payload@ == payload@,
            r.description == description,
            r.voting_start == current_block,
            r.voting_end == current_block.saturating_add(voting_period),
            r.timelock_end == current_block.saturating_add(voting_period).saturating_add(timelock_period),
            r.status == ProposalStatus::Voting,
            r.bond_amount == bond_amount,
            r.yes_votes == 0 && r.no_votes == 0 && r.abstain_votes == 0,
            r.executed_at is None,
    {
        let mut input: Vec<u8> = Vec::new();
        push_all(&mut input, proposer.0.as_slice());
        push_all(&mut input, payload.as_slice());
        push_all(&mut input, description.as_str().as_bytes());
        push_le(&mut input, current_block as u128, 8);
        let proposal_id = sha256(input.as_slice());
        let voting_end = current_block.saturating_add(voting_period);
        let timelock_end = voting_end.saturating_add(timelock_period);
        Proposal {
            proposal_id: Hash32(proposal_id),
            proposal_type,
            proposer,
            payload,
            description,
            voting_start: current_block,
            voting_end,
            timelock_end,
            status: ProposalStatus::Voting,
            bond_amount,
            yes_votes: 0,
            no_votes: 0,
            abstain_votes: 0,
            executed_at: None,
        }
    }

    /// A copy of this proposal.
    fn duplicate(&self) -> (r: Proposal)
        ensures
            same_proposal(r, *self),
    {
        Proposal {
            proposal_id: self.proposal_id,
            proposal_type: self.proposal_type,
            proposer: self.proposer,
            payload: self.payload.clone(),
            description: self.description.clone(),
            voting_start: self.voting_start,
            voting_end: self.voting_end,
            timelock_end: self.timelock_end,
            status: self.status,
            bond_amount: self.bond_amount,
            yes_votes: self.yes_votes,
            no_votes: self.no_votes,
            abstain_votes: self.abstain_votes,
            executed_at: self.executed_at,
        }
    }

    pub fn total_votes(&self) -> (r: u128)
        ensures
            r == total_votes_spec(*self),
    {
        self.yes_votes.saturating_add(self.no_votes).saturating_add(self.abstain_votes)
    }

    pub fn approval_percentage(&self) -> (r: Option<u32>)
        requires
            self.yes_votes * 100 <= u128::MAX,
        ensures
            r == approval_pct_spec(*self),
    {
        let total = self.total_votes();
        if total == 0 {
            return None;
        }
        proof {
            assert((self.yes_votes * 100) / (total as int) <= self.yes_votes * 100) by (nonlinear_arith)
                requires
                    total > 0,
                    self.yes_votes * 100 >= 0,
            ;
        }
        Some(((self.yes_votes * 100) / total) as u32)
    }

    pub fn quorum_percentage(&self, total_supply: u128) -> (r: Option<u32>)
        requires
            total_votes_spec(*self) * 100 <= u128::MAX,
        ensures
            r == quorum_pct_spec(*self, total_supply),
    {
        let total = self.total_votes();
        if total_supply == 0 {
            return None;
        }
        proof {
            assert((total * 100) / (total_supply as int) <= total * 100) by (nonlinear_arith)
                requires
                    total_supply > 0,
                    total * 100 >= 0,
            ;
        }
        Some(((total * 100) / total_supply) as u32)
    }

    /// Whether the tally reaches the threshold of the proposal's kind.
    pub fn is_approved(&self, total_supply: u128) -> (r: bool)
        requires
            tally_computable(*self),
        ensures
            r == approved_spec(*self, total_supply),
    {
        let quorum_pct = match self.quorum_percentage(total_supply) {
            Some(x) => x,
            None => 0,
        };
        let approval_pct = match self.approval_percentage() {
            Some(x) => x,
            None => 0,
        };
        self.proposal_type.threshold().is_approved(quorum_pct, approval_pct)
    }

    pub fn voting_active(&self, current_block: u64) -> (r: bool)
        ensures
            r == voting_active_spec(*self, current_block),
    {
        self.status == ProposalStatus::Voting && current_block >= self.voting_start && current_block
            < self.voting_end
    }

    pub fn timelock_expired(&self, current_block: u64) -> (r: bool)
        ensures
            r == (self.status == ProposalStatus::Timelocked && current_block >= self.timelock_end),
    {
        self.status == ProposalStatus::Timelocked && current_block >= self.timelock_end
    }

    pub fn add_vote(&mut self, choice: VoteChoice, weight: u128)
        ensures
            *final(self) == with_vote(*old(self), choice, weight),
    {
        match choice {
            VoteChoice::Yes => self.yes_votes = self.yes_votes.saturating_add(weight),
            VoteChoice::No => self.no_votes = self.no_votes.saturating_add(weight),
            VoteChoice::Abstain => self.abstain_votes = self.abstain_votes.saturating_add(weight),
        }
    }
}

/// A recorded vote.
#[derive(Clone, Copy, Debug)]
pub struct Vote {
    pub proposal_id: Hash32,
    pub voter: Address,
    pub choice: VoteChoice,
    pub weight: u128,
    pub timestamp: u64,
    pub block: u64,
}

impl Vote {
    pub fn new(proposal_id: Hash32, voter: Address, choice: VoteChoice, weight: u128, block: u64) -> (r: Self)
        ensures
            r == (Vote { proposal_id, voter, choice, weight, timestamp: 0, block }),
    {
        Vote { proposal_id, voter, choice, weight, timestamp: 0, block }
    }
}

/// Voting power lent by a delegator.
#[derive(Clone, Copy, Debug)]
pub struct Delegation {
    pub delegator: Address,
    pub delegate: Address,
    pub balance: u128,
    pub created_at: u64,
}

impl Delegation {
    pub fn new(delegator: Address, delegate: Address, balance: u128, block: u64) -> (r: Self)
        ensures
            r == (Delegation { delegator, delegate, balance, created_at: block }),
    {
        Delegation { delegator, delegate, balance, created_at: block }
    }
}

/// What emergency powers cover.
#[derive(Clone, Copy, Debug)]
pub enum EmergencyScope {
    PauseInference,
    DisableModel { model_id: Hash32 },
    FreezeOperator { operator: Address },
    HaltShardRegistry,
    FullEmergency,
    Immediate,
}

/// Emergency powers in force for a number of blocks.
#[derive(Clone, Copy, Debug)]
pub struct EmergencyPowers {
    pub active: bool,
    pub activated_at: u64,
    pub expires_at: u64,
    pub scope: EmergencyScope,
    pub activator: Address,
}

/// Whether emergency powers have lapsed at `block`.
pub open spec fn expired_spec(e: EmergencyPowers, block: u64) -> bool {
    !e.active || block > e.expires_at
}

impl EmergencyPowers {
    pub fn new(scope: EmergencyScope, duration_blocks: u64, activator: Address, current_block: u64) -> (r: Self)
        ensures
            r == (EmergencyPowers {
                active: true,
                activated_at: current_block,
                expires_at: current_block.saturating_add(duration_blocks),
                scope,
                activator,
            }),
    {
        EmergencyPowers {
            active: true,
            activated_at: current_block,
            expires_at: current_block.saturating_add(duration_blocks),
            scope,
            activator,
        }
    }

    pub fn is_expired(&self, current_block: u64) -> (r: bool)
        ensures
            r == expired_spec(*self, current_block),
    {
        !self.active || current_block > self.expires_at
    }

    pub fn deactivate(&mut self)
        ensures
            *final(self) == (EmergencyPowers { active: false, ..*old(self) }),
    {
        self.active = false;
    }
}

/// Governance parameters.
#[derive(Clone, Copy, Debug)]
pub struct GovernanceConfig {
    pub voting_period_blocks: u64,
    pub timelock_period_blocks: u64,
    pub proposal_bond: u128,
    pub emergency_duration_blocks: u64,
    pub min_proposal_bond: u128,
    pub max_proposals: u32,
}

pub open spec fn default_governance_config() -> GovernanceConfig {
    GovernanceConfig {
        voting_period_blocks: DEFAULT_VOTING_PERIOD_BLOCKS,
        timelock_period_blocks: DEFAULT_TIMELOCK_PERIOD_BLOCKS,
        proposal_bond: DEFAULT_PROPOSAL_BOND,
        emergency_duration_blocks: DEFAULT_EMERGENCY_DURATION_BLOCKS,
        min_proposal_bond: 100,
        max_proposals: 100,
    }
}

impl Default for GovernanceConfig {
    fn default() -> (r: Self)
        ensures
            r == default_governance_config(),
    {
        GovernanceConfig {
            voting_period_blocks: DEFAULT_VOTING_PERIOD_BLOCKS,
            timelock_period_blocks: DEFAULT_TIMELOCK_PERIOD_BLOCKS,
            proposal_bond: DEFAULT_PROPOSAL_BOND,
            emergency_duration_blocks: DEFAULT_EMERGENCY_DURATION_BLOCKS,
            min_proposal_bond: 100,
            max_proposals: 100,
        }
    }
}

/// Why governance refused an operation.
#[derive(Clone, Copy, Debug, PartialEq, Eq, Structural)]
pub enum GovernanceError {
    ProposalNotFound,
    VotingNotActive,
    VotingStillActive,
    NotTimelocked,
    TimelockNotExpired,
    InsufficientBond,
    TooManyProposals,
    NoVotingPower,
    SelfDelegation,
    NoDelegation,
    NotProposer,
    CannotCancel,
    EmergencyAlreadyActive,
    NoEmergency,
    ProposalExecutionFailed,
}

/// Proposals, their votes, delegations and emergency powers.
pub struct GovernanceModule {
    pub config: GovernanceConfig,
    proposals: Table<Hash32, Proposal>,
    votes: Table<Hash32, Table<Address, Vote>>,
    delegations: Table<Address, Delegation>,
    pub emergency_powers: Option<EmergencyPowers>,
    pub total_supply: u128,
    pub proposal_count: u64,
    pub executed_count: u64,
}

/// The model of a governance module: proposals and delegations keyed by the
/// bytes of their identifier, and per proposal the votes keyed by voter.
pub struct GovernanceView {
    pub config: GovernanceConfig,
    pub proposals: Map<Seq<u8>, Proposal>,
    pub votes: Map<Seq<u8>, Map<Seq<u8>, Vote>>,
    pub delegations: Map<Seq<u8>, Delegation>,
    pub emergency_powers: Option<EmergencyPowers>,
    pub total_supply: u128,
    pub proposal_count: u64,
    pub executed_count: u64,
}

impl View for GovernanceModule {
    type V = GovernanceView;

    closed spec fn view(&self) -> GovernanceView {
        GovernanceView {
            config: self.config,
            proposals: self.proposals@,
            votes: Map::new(|k: Seq<u8>| self.votes@.dom().contains(k), |k: Seq<u8>| self.votes@[k]@),
            delegations: self.delegations@,
            emergency_powers: self.emergency_powers,
            total_supply: self.total_supply,
            proposal_count: self.proposal_count,
            executed_count: self.executed_count,
        }
    }
}

/// The voting power of `voter`: its own weight plus what it delegated,
/// saturating.
pub open spec fn voting_power_spec(v: GovernanceView, voter: Address, base: u128) -> u128 {
    if v.delegations.dom().contains(voter.0@) {
        base.saturating_add(v.delegations[voter.0@].balance)
    } else {
        base
    }
}

/// Which proposals a listing selects.
pub enum ProposalFilter {
    VotingAt(u64),
    Timelocked,
}

pub open spec fn filter_selects(f: ProposalFilter, p: Proposal) -> bool {
    match f {
        ProposalFilter::VotingAt(b) => voting_active_spec(p, b),
        ProposalFilter::Timelocked => p.status == ProposalStatus::Timelocked,
    }
}

/// A listing holds exactly the proposals of `m` that `f` selects, each once.
pub open spec fn lists_exactly(r: Seq<&Proposal>, m: Map<Seq<u8>, Proposal>, f: ProposalFilter) -> bool {
    &&& forall|i: int| 0 <= i < r.len() ==> m.dom().contains((#[trigger] r[i]).proposal_id.0@)
        && *r[i] == m[r[i].proposal_id.0@] && filter_selects(f, *r[i])
    &&& forall|k: Seq<u8>| #[trigger] m.dom().contains(k) && filter_selects(f, m[k]) ==> exists|i: int|
        0 <= i < r.len() && r[i].proposal_id.0@ == k
    &&& forall|i: int, j: int| 0 <= i < j < r.len() ==> (#[trigger] r[i]).proposal_id.0@ != (#[trigger] r[j]).proposal_id.0@
}

impl GovernanceModule {
    /// The tables are well formed, every proposal has a vote table and is
    /// stored under its identifier.
    pub closed spec fn wf(&self) -> bool {
        &&& self.proposals.wf()
        &&& self.votes.wf()
        &&& self.delegations.wf()
        &&& forall|k: Seq<u8>| #[trigger] self.votes@.dom().contains(k) ==> self.votes@[k].wf()
        &&& self.votes@.dom() == self.proposals@.dom()
        &&& forall|k: Seq<u8>| #[trigger] self.proposals@.dom().contains(k) ==> self.proposals@[k].proposal_id.0@ == k
    }

    pub fn new(total_supply: u128) -> (r: Self)
        ensures
            r.wf(),
            r@.config == default_governance_config(),
            r@.proposals == Map::<Seq<u8>, Proposal>::empty(),
            r@.votes == Map::<Seq<u8>, Map<Seq<u8>, Vote>>::empty(),
            r@.delegations == Map::<Seq<u8>, Delegation>::empty(),
            r@.emergency_powers is None,
            r@.total_supply == total_supply,
            r@.proposal_count == 0 && r@.executed_count == 0,
    {
        let r = GovernanceModule {
            config: GovernanceConfig::default(),
            proposals: Table::new(),
            votes: Table::new(),
            delegations: Table::new(),
            emergency_powers: None,
            total_supply,
            proposal_count: 0,
            executed_count: 0,
        };
        assert(r@.votes =~= Map::<Seq<u8>, Map<Seq<u8>, Vote>>::empty());
        r
    }

    /// Submits a proposal with the configured bond and periods and returns a
    /// copy of it. A proposal with the same identifier is replaced, votes
    /// included.
    pub fn submit_proposal(
        &mut self,
        proposer: Address,
        proposal_type: ProposalType,
        payload: Vec<u8>,
        description: String,
        current_block: u64,
    ) -> (r: Result<Proposal, GovernanceError>)
        requires
            old(self).wf(),
            old(self)@.proposals.len() < old(self)@.config.max_proposals && old(self)@.config.proposal_bond
                >= old(self)@.config.min_proposal_bond ==> old(self)@.proposal_count < u64::MAX,
        ensures
            final(self).wf(),
            old(self)@.proposals.len() >= old(self)@.config.max_proposals ==> r == Err::<Proposal, GovernanceError>(
                GovernanceError::TooManyProposals,
            ) && final(self)@ == old(self)@,
            old(self)@.proposals.len() < old(self)@.config.max_proposals && old(self)@.config.proposal_bond
                < old(self)@.config.min_proposal_bond ==> r == Err::<Proposal, GovernanceError>(
                GovernanceError::InsufficientBond,
            ) && final(self)@ == old(self)@,
            old(self)@.proposals.len() < old(self)@.config.max_proposals && old(self)@.config.proposal_bond
                >= old(self)@.config.min_proposal_bond ==> {
                let c = old(self)@.config;
                let id = sha256_spec(proposal_id_input(proposer, payload@, description@, current_block));
                &&& r matches Ok(p) && same_proposal(p, final(self)@.proposals[id])
                &&& final(self)@.proposals.dom() == old(self)@.proposals.dom().insert(id)
                &&& forall|k: Seq<u8>| k != id && #[trigger] old(self)@.proposals.dom().contains(k) ==> final(self)@.proposals[k]
                    == old(self)@.proposals[k]
                &&& final(self)@.proposals[id].proposal_id.0@ == id
                &&& final(self)@.proposals[id].proposal_type == proposal_type
                &&& final(self)@.proposals[id].proposer == proposer
                &&& final(self)@.proposals[id].payload@ == payload@
                &&& final(self)@.proposals[id].description == description
                &&& final(self)@.proposals[id].voting_start == current_block
                &&& final(self)@.proposals[id].voting_end == current_block.saturating_add(c.voting_period_blocks)
                &&& final(self)@.proposals[id].timelock_end == current_block.saturating_add(
                    c.voting_period_blocks,
                ).saturating_add(c.timelock_period_blocks)
                &&& final(self)@.proposals[id].status == ProposalStatus::Voting
                &&& final(self)@.proposals[id].bond_amount == c.proposal_bond
                &&& final(self)@.proposals[id].yes_votes == 0 && final(self)@.proposals[id].no_votes == 0
                    && final(self)@.proposals[id].abstain_votes == 0
                &&& final(self)@.proposals[id].executed_at is None
                &&& final(self)@.votes == old(self)@.votes.insert(id, Map::empty())
                &&& final(self)@.proposal_count == old(self)@.proposal_count + 1
                &&& final(self)@.delegations == old(self)@.delegations
                &&& final(self)@.config == old(self)@.config
                &&& final(self)@.emergency_powers == old(self)@.emergency_powers
                &&& final(self)@.total_supply == old(self)@.total_supply
                &&& final(self)@.executed_count == old(self)@.executed_count
            },
    {
        proof {
            self.proposals.lemma_view();
        }
        if self.proposals.len() >= self.config.max_proposals as usize {
            return Err(GovernanceError::TooManyProposals);
        }
        if self.config.proposal_bond < self.config.min_proposal_bond {
            return Err(GovernanceError::InsufficientBond);
        }
        let proposal = Proposal::new(
            proposer,
            proposal_type,
            payload,
            description,
            current_block,
            self.config.proposal_bond,
            self.config.voting_period_blocks,
            self.config.timelock_period_blocks,
        );
        let proposal_id = proposal.proposal_id;
        let copy = proposal.duplicate();
        let ghost old_votes = self.votes@;
        self.proposals.insert(proposal_id, proposal);
        self.votes.insert(proposal_id, Table::new());
        self.proposal_count = self.proposal_count + 1;
        proof {
            assert(self@.votes =~= old(self)@.votes.insert(proposal_id.0@, Map::empty()));
        }
        Ok(copy)
    }

    /// Records a vote with the voter's voting power (see `voting_power_spec`)
    /// while voting is open. A second vote by the same voter replaces the
    /// recorded vote and its power is added to the tally again.
    pub fn cast_vote(
        &mut self,
        proposal_id: &Hash32,
        voter: Address,
        choice: VoteChoice,
        weight: u128,
        current_block: u64,
    ) -> (r: Result<(), GovernanceError>)
        requires
            old(self).wf(),
        ensures
            final(self).wf(),
            ({
                let power = voting_power_spec(old(self)@, voter, weight);
                let id = proposal_id.0@;
                &&& power == 0 ==> r == Err::<(), GovernanceError>(GovernanceError::NoVotingPower) && final(self)@
                    == old(self)@
                &&& power != 0 && !old(self)@.proposals.dom().contains(id) ==> r == Err::<(), GovernanceError>(
                    GovernanceError::ProposalNotFound,
                ) && final(self)@ == old(self)@
                &&& power != 0 && old(self)@.proposals.dom().contains(id) && !voting_active_spec(
                    old(self)@.proposals[id],
                    current_block,
                ) ==> r == Err::<(), GovernanceError>(GovernanceError::VotingNotActive) && final(self)@ == old(self)@
                &&& power != 0 && old(self)@.proposals.dom().contains(id) && voting_active_spec(
                    old(self)@.proposals[id],
                    current_block,
                ) ==> r is Ok && final(self)@ == (GovernanceView {
                    proposals: old(self)@.proposals.insert(id, with_vote(old(self)@.proposals[id], choice, power)),
                    votes: old(self)@.votes.insert(
                        id,
                        old(self)@.votes[id].insert(
                            voter.0@,
                            Vote {
                                proposal_id: *proposal_id,
                                voter,
                                choice,
                                weight: power,
                                timestamp: 0,
                                block: current_block,
                            },
                        ),
                    ),
                    ..old(self)@
                })
            }),
    {
        let voting_power = self.get_voting_power(&voter, weight);
        if voting_power == 0 {
            return Err(GovernanceError::NoVotingPower);
        }
        let ghost old_votes = self.votes@;
        let ghost s0 = *self;
        match self.proposals.get(proposal_id) {
            Some(proposal) => {
                if !proposal.voting_active(current_block) {
                    return Err(GovernanceError::VotingNotActive);
                }
            },
            None => {
                return Err(GovernanceError::ProposalNotFound);
            },
        }
        match self.proposals.get_mut(proposal_id) {
            Some(proposal) => {
                proposal.add_vote(choice, voting_power);
            },
            None => {},
        }
        match self.votes.get_mut(proposal_id) {
            Some(votes) => {
                votes.insert(voter, Vote::new(*proposal_id, voter, choice, voting_power, current_block));
            },
            None => {},
        }
        proof {
            assert(self.votes@.dom() == old_votes.dom());
            assert(self@.votes =~= s0@.votes.insert(
                proposal_id.0@,
                s0@.votes[proposal_id.0@].insert(
                    voter.0@,
                    Vote { proposal_id: *proposal_id, voter, choice, weight: voting_power, timestamp: 0, block: current_block },
                ),
            ));
        }
        Ok(())
    }

    fn get_voting_power(&self, voter: &Address, base_weight: u128) -> (r: u128)
        requires
            self.wf(),
        ensures
            r == voting_power_spec(self@, *voter, base_weight),
    {
        let mut power = base_weight;
        match self.delegations.get(voter) {
            Some(delegation) => {
                power = power.saturating_add(delegation.balance);
            },
            None => {},
        }
        power
    }

    /// Records that `delegator` lends `amount` to `delegate`, replacing an
    /// earlier delegation; an address cannot delegate to itself.
    pub fn delegate(&mut self, delegator: Address, delegate: Address, amount: u128, current_block: u64) -> (r: Result<(), GovernanceError>)
        requires
            old(self).wf(),
        ensures
            final(self).wf(),
            delegator.0@ == delegate.0@ ==> r == Err::<(), GovernanceError>(GovernanceError::SelfDelegation)
                && final(self)@ == old(self)@,
            delegator.0@ != delegate.0@ ==> r is Ok && final(self)@ == (GovernanceView {
                delegations: old(self)@.delegations.insert(
                    delegator.0@,
                    Delegation { delegator, delegate, balance: amount, created_at: current_block },
                ),
                ..old(self)@
            }),
    {
        if delegator == delegate {
            return Err(GovernanceError::SelfDelegation);
        }
        let delegation = Delegation::new(delegator, delegate, amount, current_block);
        self.delegations.insert(delegator, delegation);
        Ok(())
    }

    /// Withdraws the delegation of `delegator`.
    pub fn undelegate(&mut self, delegator: &Address) -> (r: Result<(), GovernanceError>)
        requires
            old(self).wf(),
        ensures
            final(self).wf(),
            !old(self)@.delegations.dom().contains(delegator.0@) ==> r == Err::<(), GovernanceError>(
                GovernanceError::NoDelegation,
            ) && final(self)@ == old(self)@,
            old(self)@.delegations.dom().contains(delegator.0@) ==> r is Ok && final(self)@ == (GovernanceView {
                delegations: old(self)@.delegations.remove(delegator.0@),
                ..old(self)@
            }),
    {
        match self.delegations.remove(delegator) {
            Some(_) => Ok(()),
            None => {
                assert(old(self).delegations@.remove(delegator.0@) =~= old(self).delegations@);
                Err(GovernanceError::NoDelegation)
            },
        }
    }

    /// Closes voting once its period is over: an approved proposal enters
    /// its timelock, any other is rejected.
    pub fn end_voting(&mut self, proposal_id: &Hash32, current_block: u64) -> (r: Result<ProposalStatus, GovernanceError>)
        requires
            old(self).wf(),
            old(self)@.proposals.dom().contains(proposal_id.0@) ==> tally_computable(
                old(self)@.proposals[proposal_id.0@],
            ),
        ensures
            final(self).wf(),
            ({
                let id = proposal_id.0@;
                let p = old(self)@.proposals[id];
                &&& !old(self)@.proposals.dom().contains(id) ==> r == Err::<ProposalStatus, GovernanceError>(
                    GovernanceError::ProposalNotFound,
                ) && final(self)@ == old(self)@
                &&& old(self)@.proposals.dom().contains(id) && p.status != ProposalStatus::Voting ==> r == Err::<
                    ProposalStatus,
                    GovernanceError,
                >(GovernanceError::VotingNotActive) && final(self)@ == old(self)@
                &&& old(self)@.proposals.dom().contains(id) && p.status == ProposalStatus::Voting && current_block
                    < p.voting_end ==> r == Err::<ProposalStatus, GovernanceError>(GovernanceError::VotingStillActive)
                    && final(self)@ == old(self)@
                &&& old(self)@.proposals.dom().contains(id) && p.status == ProposalStatus::Voting && current_block
                    >= p.voting_end ==> {
                    let s = if approved_spec(p, old(self)@.total_supply) {
                        ProposalStatus::Timelocked
                    } else {
                        ProposalStatus::Rejected
                    };
                    &&& r == Ok::<ProposalStatus, GovernanceError>(s)
                    &&& final(self)@ == (GovernanceView {
                        proposals: old(self)@.proposals.insert(id, Proposal { status: s, ..p }),
                        ..old(self)@
                    })
                }
            }),
    {
        let total_supply = self.total_supply;
        let ghost s0 = *self;
        match self.proposals.get(proposal_id) {
            Some(proposal) => {
                if proposal.status != ProposalStatus::Voting {
                    return Err(GovernanceError::VotingNotActive);
                }
                if current_block < proposal.voting_end {
                    return Err(GovernanceError::VotingStillActive);
                }
            },
            None => {
                return Err(GovernanceError::ProposalNotFound);
            },
        }
        let r = match self.proposals.get_mut(proposal_id) {
            Some(proposal) => {
                if proposal.is_approved(total_supply) {
                    proposal.status = ProposalStatus::Timelocked;
                    Ok(ProposalStatus::Timelocked)
                } else {
                    proposal.status = ProposalStatus::Rejected;
                    Ok(ProposalStatus::Rejected)
                }
            },
            None => Err(GovernanceError::ProposalNotFound),
        };
        proof {
            assert(self@.votes =~= s0@.votes);
            assert(self.proposals@.dom() =~= s0.proposals@.dom());
        }
        r
    }

    /// Executes a timelocked proposal once its timelock is over.
    pub fn execute_proposal(&mut self, proposal_id: &Hash32, current_block: u64) -> (r: Result<(), GovernanceError>)
        requires
            old(self).wf(),
            old(self)@.proposals.dom().contains(proposal_id.0@) && old(self)@.proposals[proposal_id.0@].status
                == ProposalStatus::Timelocked && current_block >= old(self)@.proposals[proposal_id.0@].timelock_end
                ==> old(self)@.executed_count < u64::MAX,
        ensures
            final(self).wf(),
            ({
                let id = proposal_id.0@;
                let p = old(self)@.proposals[id];
                &&& !old(self)@.proposals.dom().contains(id) ==> r == Err::<(), GovernanceError>(
                    GovernanceError::ProposalNotFound,
                ) && final(self)@ == old(self)@
                &&& old(self)@.proposals.dom().contains(id) && p.status != ProposalStatus::Timelocked ==> r == Err::<
                    (),
                    GovernanceError,
                >(GovernanceError::NotTimelocked) && final(self)@ == old(self)@
                &&& old(self)@.proposals.dom().contains(id) && p.status == ProposalStatus::Timelocked && current_block
                    < p.timelock_end ==> r == Err::<(), GovernanceError>(GovernanceError::TimelockNotExpired)
                    && final(self)@ == old(self)@
                &&& old(self)@.proposals.dom().contains(id) && p.status == ProposalStatus::Timelocked && current_block
                    >= p.timelock_end ==> r is Ok && final(self)@ == (GovernanceView {
                    proposals: old(self)@.proposals.insert(
                        id,
                        Proposal { status: ProposalStatus::Executed, executed_at: Some(current_block), ..p },
                    ),
                    executed_count: (old(self)@.executed_count + 1) as u64,
                    ..old(self)@
                })
            }),
    {
        let ghost s0 = *self;
        match self.proposals.get(proposal_id) {
            Some(proposal) => {
                if proposal.status != ProposalStatus::Timelocked {
                    return Err(GovernanceError::NotTimelocked);
                }
                if !proposal.timelock_expired(current_block) {
                    return Err(GovernanceError::TimelockNotExpired);
                }
            },
            None => {
                return Err(GovernanceError::ProposalNotFound);
            },
        }
        match self.proposals.get_mut(proposal_id) {
            Some(proposal) => {
                proposal.status = ProposalStatus::Executed;
                proposal.executed_at = Some(current_block);
            },
            None => {},
        }
        self.executed_count = self.executed_count + 1;
        proof {
            assert(self@.votes =~= s0@.votes);
            assert(self.proposals@.dom() =~= s0.proposals@.dom());
        }
        Ok(())
    }

    /// Cancels a proposal in voting or pending, at its proposer's request.
    pub fn cancel_proposal(&mut self, proposal_id: &Hash32, proposer: &Address) -> (r: Result<(), GovernanceError>)
        requires
            old(self).wf(),
        ensures
            final(self).wf(),
            ({
                let id = proposal_id.0@;
                let p = old(self)@.proposals[id];
                &&& !old(self)@.proposals.dom().contains(id) ==> r == Err::<(), GovernanceError>(
                    GovernanceError::ProposalNotFound,
                ) && final(self)@ == old(self)@
                &&& old(self)@.proposals.dom().contains(id) && p.proposer.0@ != proposer.0@ ==> r == Err::<
                    (),
                    GovernanceError,
                >(GovernanceError::NotProposer) && final(self)@ == old(self)@
                &&& old(self)@.proposals.dom().contains(id) && p.proposer.0@ == proposer.0@ && p.status
                    != ProposalStatus::Voting && p.status != ProposalStatus::Pending ==> r == Err::<(), GovernanceError>(
                    GovernanceError::CannotCancel,
                ) && final(self)@ == old(self)@
                &&& old(self)@.proposals.dom().contains(id) && p.proposer.0@ == proposer.0@ && (p.status
                    == ProposalStatus::Voting || p.status == ProposalStatus::Pending) ==> r is Ok && final(self)@
                    == (GovernanceView {
                    proposals: old(self)@.proposals.insert(id, Proposal { status: ProposalStatus::Cancelled, ..p }),
                    ..old(self)@
                })
            }),
    {
        let ghost s0 = *self;
        match self.proposals.get(proposal_id) {
            Some(proposal) => {
                if !(proposal.proposer == *proposer) {
                    return Err(GovernanceError::NotProposer);
                }
                if proposal.status != ProposalStatus::Voting && proposal.status != ProposalStatus::Pending {
                    return Err(GovernanceError::CannotCancel);
                }
            },
            None => {
                return Err(GovernanceError::ProposalNotFound);
            },
        }
        let r = match self.proposals.get_mut(proposal_id) {
            Some(proposal) => {
                proposal.status = ProposalStatus::Cancelled;
                Ok(())
            },
            None => Err(GovernanceError::ProposalNotFound),
        };
        proof {
            assert(self@.votes =~= s0@.votes);
            assert(self.proposals@.dom() =~= s0.proposals@.dom());
        }
        r
    }

    /// Activates emergency powers for the configured duration, unless
    /// powers are in force.
    pub fn activate_emergency(&mut self, scope: EmergencyScope, activator: Address, current_block: u64) -> (r: Result<(), GovernanceError>)
        requires
            old(self).wf(),
        ensures
            final(self).wf(),
            (old(self)@.emergency_powers matches Some(e) && e.active && !expired_spec(e, current_block)) ==> r
                == Err::<(), GovernanceError>(GovernanceError::EmergencyAlreadyActive) && final(self)@ == old(self)@,
            !(old(self)@.emergency_powers matches Some(e) && e.active && !expired_spec(e, current_block)) ==> r is Ok
                && final(self)@ == (GovernanceView {
                emergency_powers: Some(
                    EmergencyPowers {
                        active: true,
                        activated_at: current_block,
                        expires_at: current_block.saturating_add(old(self)@.config.emergency_duration_blocks),
                        scope,
                        activator,
                    },
                ),
                ..old(self)@
            }),
    {
        match self.emergency_powers {
            Some(powers) => {
                if powers.active && !powers.is_expired(current_block) {
                    return Err(GovernanceError::EmergencyAlreadyActive);
                }
            },
            None => {},
        }
        let emergency = EmergencyPowers::new(scope, self.config.emergency_duration_blocks, activator, current_block);
        self.emergency_powers = Some(emergency);
        Ok(())
    }

    /// Deactivates the emergency powers, if there are any.
    pub fn deactivate_emergency(&mut self) -> (r: Result<(), GovernanceError>)
        requires
            old(self).wf(),
        ensures
            final(self).wf(),
            old(self)@.emergency_powers is None ==> r == Err::<(), GovernanceError>(GovernanceError::NoEmergency)
                && final(self)@ == old(self)@,
            old(self)@.emergency_powers matches Some(e) ==> r is Ok && final(self)@ == (GovernanceView {
                emergency_powers: Some(EmergencyPowers { active: false, ..e }),
                ..old(self)@
            }),
    {
        match self.emergency_powers {
            Some(mut powers) => {
                powers.deactivate();
                self.emergency_powers = Some(powers);
                Ok(())
            },
            None => Err(GovernanceError::NoEmergency),
        }
    }

    pub fn get_proposal(&self, proposal_id: &Hash32) -> (r: Option<&Proposal>)
        requires
            self.wf(),
        ensures
            r is Some <==> self@.proposals.dom().contains(proposal_id.0@),
            r matches Some(p) ==> *p == self@.proposals[proposal_id.0@],
    {
        self.proposals.get(proposal_id)
    }

    pub fn get_vote(&self, proposal_id: &Hash32, voter: &Address) -> (r: Option<&Vote>)
        requires
            self.wf(),
        ensures
            r is Some <==> self@.votes.dom().contains(proposal_id.0@) && self@.votes[proposal_id.0@].dom().contains(
                voter.0@,
            ),
            r matches Some(v) ==> *v == self@.votes[proposal_id.0@][voter.0@],
    {
        match self.votes.get(proposal_id) {
            Some(v) => v.get(voter),
            None => None,
        }
    }

    pub fn get_delegation(&self, delegator: &Address) -> (r: Option<&Delegation>)
        requires
            self.wf(),
        ensures
            r is Some <==> self@.delegations.dom().contains(delegator.0@),
            r matches Some(d) ==> *d == self@.delegations[delegator.0@],
    {
        self.delegations.get(delegator)
    }

    fn select(&self, f: ProposalFilter) -> (r: Vec<&Proposal>)
        requires
            self.wf(),
        ensures
            lists_exactly(r@, self@.proposals, f),
    {
        let ghost src = self.proposals.seq();
        proof {
            self.proposals.lemma_view();
        }
        let n = self.proposals.len();
        let mut out: Vec<&Proposal> = Vec::new();
        let ghost mut idx: Seq<int> = Seq::empty();
        let mut i: usize = 0;
        while i < n
            invariant
                self.wf(),
                src == self.proposals.seq(),
                n == src.len(),
                i <= n,
                crate::table::distinct_keys(src),
                forall|j: int| 0 <= j < n ==> (#[trigger] src[j]).1 == self@.proposals[src[j].0.kview()]
                    && self@.proposals.dom().contains(src[j].0.kview()),
                idx.len() == out@.len(),
                forall|a: int| 0 <= a < idx.len() ==> 0 <= #[trigger] idx[a] < i && *out@[a] == src[idx[a]].1
                    && filter_selects(f, src[idx[a]].1),
                forall|a: int, b: int| 0 <= a < b < idx.len() ==> #[trigger] idx[a] < #[trigger] idx[b],
                forall|j: int| 0 <= j < i && filter_selects(f, (#[trigger] src[j]).1) ==> exists|a: int|
                    0 <= a < idx.len() && idx[a] == j,
            decreases n - i,
        {
            let p = self.proposals.value_at(i);
            let keep = match f {
                ProposalFilter::VotingAt(b) => p.voting_active(b),
                ProposalFilter::Timelocked => p.status == ProposalStatus::Timelocked,
            };
            if keep {
                out.push(p);
                proof {
                    let old_idx = idx;
                    idx = idx.push(i as int);
                    assert forall|j: int| 0 <= j < i + 1 && filter_selects(f, (#[trigger] src[j]).1) implies exists|a: int|
                        0 <= a < idx.len() && idx[a] == j by {
                        if j == i {
                            assert(idx[idx.len() - 1] == j);
                        } else {
                            let a = choose|a: int| 0 <= a < old_idx.len() && old_idx[a] == j;
                            assert(idx[a] == j);
                        }
                    }
                }
            }
            i = i + 1;
        }
        proof {
            let m = self@.proposals;
            assert forall|a: int| 0 <= a < out@.len() implies m.dom().contains((#[trigger] out@[a]).proposal_id.0@)
                && *out@[a] == m[out@[a].proposal_id.0@] && filter_selects(f, *out@[a]) by {
                let j = idx[a];
                assert(m[src[j].0.kview()].proposal_id.0@ == src[j].0.kview());
            }
            assert forall|k: Seq<u8>| #[trigger] m.dom().contains(k) && filter_selects(f, m[k]) implies exists|a: int|
                0 <= a < out@.len() && out@[a].proposal_id.0@ == k by {
                let j = choose|j: int| 0 <= j < src.len() && src[j].0.kview() == k;
                assert(filter_selects(f, src[j].1));
                let a = choose|a: int| 0 <= a < idx.len() && idx[a] == j;
                assert(out@[a].proposal_id.0@ == k);
            }
            assert forall|a: int, b: int| 0 <= a < b < out@.len() implies (#[trigger] out@[a]).proposal_id.0@
                != (#[trigger] out@[b]).proposal_id.0@ by {
                let ja = idx[a];
                let jb = idx[b];
                assert(ja < jb);
                assert(m[src[ja].0.kview()].proposal_id.0@ == src[ja].0.kview());
                assert(m[src[jb].0.kview()].proposal_id.0@ == src[jb].0.kview());
                assert(src[ja].0.kview() != src[jb].0.kview());
            }
        }
        out
    }

    /// The proposals open for voting at `current_block`, each once.
    pub fn active_proposals(&self, current_block: u64) -> (r: Vec<&Proposal>)
        requires
            self.wf(),
        ensures
            lists_exactly(r@, self@.proposals, ProposalFilter::VotingAt(current_block)),
    {
        self.select(ProposalFilter::VotingAt(current_block))
    }

    /// The timelocked proposals, each once.
    pub fn timelocked_proposals(&self) -> (r: Vec<&Proposal>)
        requires
            self.wf(),
        ensures
            lists_exactly(r@, self@.proposals, ProposalFilter::Timelocked),
    {
        self.select(ProposalFilter::Timelocked)
    }

    pub fn proposal_count(&self) -> (r: u64)
        ensures
            r == self@.proposal_count,
    {
        self.proposal_count
    }

    pub fn update_config(&mut self, config: GovernanceConfig)
        requires
            old(self).wf(),
        ensures
            final(self).wf(),
            final(self)@ == (GovernanceView { config, ..old(self)@ }),
    {
        self.config = config;
    }

    pub fn update_total_supply(&mut self, supply: u128)
        requires
            old(self).wf(),
        ensures
            final(self).wf(),
            final(self)@ == (GovernanceView { total_supply: supply, ..old(self)@ }),
    {
        self.total_supply = supply;
    }
}

impl Default for GovernanceModule {
    fn default() -> (r: Self)
        ensures
            r.wf(),
            r@.config == default_governance_config(),
            r@.proposals == Map::<Seq<u8>, Proposal>::empty(),
            r@.delegations == Map::<Seq<u8>, Delegation>::empty(),
            r@.emergency_powers is None,
            r@.total_supply == 0,
            r@.proposal_count == 0 && r@.executed_count == 0,
    {
        GovernanceModule::new(0)
    }
}


/// A proposal is approved exactly when the turnout (all votes, in percent
/// of the supply) reaches its kind's quorum and the yes votes, in percent
/// of all votes, reach its kind's approval bar; so, as every bar is at
/// least one half, a proposal with more no than yes votes is never
/// approved. It needs the vote sum to fit in a `u128` and the turnout
/// percentage in a `u32`.
pub proof fn lemma_approval_needs_yes_share(p: Proposal, supply: u128)
    requires
        tally_computable(p),
        p.yes_votes + p.no_votes + p.abstain_votes <= u128::MAX,
        supply > 0 ==> (p.yes_votes + p.no_votes + p.abstain_votes) * 100 / (supply as int) <= u32::MAX,
    ensures
        ({
            let total = p.yes_votes + p.no_votes + p.abstain_votes;
            let th = threshold_spec(p.proposal_type);
            &&& approved_spec(p, supply) <==> (supply > 0 && total * 100 / (supply as int) >= th.quorum && total > 0
                && p.yes_votes * 100 / total >= th.approval)
            &&& p.no_votes > p.yes_votes ==> !approved_spec(p, supply)
        }),
{
    let total = p.yes_votes + p.no_votes + p.abstain_votes;
    let th = threshold_spec(p.proposal_type);
    assert(total_votes_spec(p) == total);
    if total > 0 {
        assert(p.yes_votes * 100 / total <= 100) by (nonlinear_arith)
            requires
                p.yes_votes <= total,
                total > 0,
        ;
        if p.no_votes > p.yes_votes {
            assert(p.yes_votes * 100 / total < 50) by (nonlinear_arith)
                requires
                    p.yes_votes < p.no_votes,
                    p.yes_votes + p.no_votes <= total,
                    total > 0,
            ;
            assert(th.approval >= 50);
        }
    }
}


/// A vote adds its weight to the tally of its choice alone: the chosen
/// count grows by the weight, the other two counts and every other field
/// stay, so the total grows by the weight (when the count does not
/// saturate).
pub proof fn lemma_vote_adds_weight(p: Proposal, choice: VoteChoice, weight: u128)
    requires
        p.yes_votes + p.no_votes + p.abstain_votes + weight <= u128::MAX,
    ensures
        ({
            let q = with_vote(p, choice, weight);
            &&& q.yes_votes + q.no_votes + q.abstain_votes == p.yes_votes + p.no_votes + p.abstain_votes + weight
            &&& q.yes_votes == p.yes_votes + if choice == VoteChoice::Yes { weight as int } else { 0 }
            &&& q.no_votes == p.no_votes + if choice == VoteChoice::No { weight as int } else { 0 }
            &&& q.abstain_votes == p.abstain_votes + if choice == VoteChoice::Abstain { weight as int } else { 0 }
            &&& q == (Proposal { yes_votes: q.yes_votes, no_votes: q.no_votes, abstain_votes: q.abstain_votes, ..p })
        }),
{
}

} // verus!
