//! Runtime governance: proposals with type-dependent thresholds, token
//! weighted votes, finalization against quorum and approval, timelocks and
//! execution.

use vstd::prelude::*;
use crate::bytes::{bytes32_eq, le_bytes, push_all, push_le};
use crate::digest::{sha256, sha256_spec};
use crate::kernel::{Address, Hash32};
use crate::runtime::RuntimeError;
use crate::table::{Table, TableKey};

verus! {

#[derive(Clone, Copy, Debug, PartialEq, Eq, Structural)]
pub enum ProposalState {
    Pending,
    Active,
    Passed,
    Rejected,
    Executed,
    Timelocked,
    Expired,
}

#[derive(Clone, Copy, Debug, PartialEq, Eq, Structural)]
pub enum ProposalType {
    ParameterChange,
    RuntimeUpgrade,
    TreasurySpend,
    EmergencyBrake,
    Text,
    ConstitutionalAmendment,
}

/// How far an emergency reaches.
#[derive(Clone, Copy, Debug, PartialEq, Eq, Structural)]
pub enum EmergencyScope {
    NoScope,
    Partial,
    Full,
}

#[derive(Clone, Debug)]
pub struct Proposal {
    pub id: Hash32,
    pub proposer: Address,
    pub title: String,
    pub description: String,
    pub payload: Vec<u8>,
    pub proposal_type: ProposalType,
    pub state: ProposalState,
    pub votes_for: u128,
    pub votes_against: u128,
    pub voting_start: u64,
    pub voting_end: u64,
    pub executed: bool,
    pub timelock_end: u64,
    pub emergency_scope: EmergencyScope,
    pub approval_threshold: u32,
    pub quorum_threshold: u32,
}

#[derive(Clone, Copy, Debug)]
pub struct Vote {
    pub voter: Address,
    pub proposal_id: Hash32,
    pub support: bool,
    pub weight: u128,
}

/// Thresholds and periods of governance.
#[derive(Clone, Copy, Debug, PartialEq, Eq, Structural)]
pub struct GovernanceParameters {
    pub default_approval_threshold: u32,
    pub default_quorum_threshold: u32,
    pub emergency_threshold: u32,
    pub constitutional_threshold: u32,
    pub min_voting_period: u64,
    pub max_voting_period: u64,
    pub timelock_period: u64,
    pub emergency_voting_period: u64,
    pub emergency_quorum: u32,
}

pub open spec fn default_parameters() -> GovernanceParameters {
    GovernanceParameters {
        default_approval_threshold: 50,
        default_quorum_threshold: 30,
        emergency_threshold: 66,
        constitutional_threshold: 75,
        min_voting_period: 7200,
        max_voting_period: 604800,
        timelock_period: 172800,
        emergency_voting_period: 3600,
        emergency_quorum: 50,
    }
}

impl Default for GovernanceParameters {
    fn default() -> (r: Self)
        ensures
            r == default_parameters(),
    {
        GovernanceParameters {
            default_approval_threshold: 50,
            default_quorum_threshold: 30,
            emergency_threshold: 66,
            constitutional_threshold: 75,
            min_voting_period: 7200,
            max_voting_period: 604800,
            timelock_period: 172800,
            emergency_voting_period: 3600,
            emergency_quorum: 50,
        }
    }
}

impl TableKey for (Address, Hash32) {
    type KV = (Seq<u8>, Seq<u8>);

    open spec fn kview(&self) -> (Seq<u8>, Seq<u8>) {
        (self.0.0@, self.1.0@)
    }

    fn key_eq(&self, other: &Self) -> (r: bool) {
        bytes32_eq(&self.0.0, &other.0.0) && bytes32_eq(&self.1.0, &other.1.0)
    }
}

/// The approval and quorum thresholds of a proposal type.
pub open spec fn thresholds_for(p: GovernanceParameters, t: ProposalType) -> (u32, u32) {
    match t {
        ProposalType::EmergencyBrake => (p.emergency_threshold, p.emergency_quorum),
        ProposalType::ConstitutionalAmendment => (p.constitutional_threshold, p.default_quorum_threshold),
        _ => (p.default_approval_threshold, p.default_quorum_threshold),
    }
}

/// `v` brought into `[lo, hi]`.
pub open spec fn clamp_spec(v: u64, lo: u64, hi: u64) -> u64 {
    if v < lo {
        lo
    } else if v > hi {
        hi
    } else {
        v
    }
}

/// The bytes digested into the id of the `counter`-th proposal.
pub open spec fn proposal_id_input(counter: u64, proposer: Address, payload: Seq<u8>) -> Seq<u8> {
    le_bytes(counter as nat, 8) + proposer.0@ + payload
}

/// The end of the voting period the parameters allow for a requested end
/// (periods count from height 0).
pub open spec fn voting_end_for(p: GovernanceParameters, requested: u64) -> u64 {
    clamp_spec(requested, p.min_voting_period, p.max_voting_period)
}

/// The end of the timelock of a proposal of type `t`: the emergency voting
/// period for an emergency brake, the timelock period otherwise, counted
/// like the voting period from height 0.
pub open spec fn timelock_end_for(p: GovernanceParameters, t: ProposalType) -> u64 {
    if t == ProposalType::EmergencyBrake {
        p.emergency_voting_period
    } else {
        p.timelock_period
    }
}

/// The proposals of `s` (in order) that `keep` selects.
pub open spec fn proposals_where(s: Seq<(Hash32, Proposal)>, keep: spec_fn(Proposal) -> bool) -> Seq<Proposal>
    decreases s.len(),
{
    if s.len() == 0 {
        Seq::empty()
    } else {
        proposals_where(s.drop_last(), keep) + if keep(s.last().1) {
            seq![s.last().1]
        } else {
            Seq::empty()
        }
    }
}

/// The proposals referred to by a list of references.
pub open spec fn derefs(r: Seq<&Proposal>) -> Seq<Proposal> {
    r.map_values(|p: &Proposal| *p)
}

/// Which proposals a listing selects.
#[derive(Clone, Copy, Debug, PartialEq, Eq, Structural)]
pub enum ProposalSelect {
    OfType(ProposalType),
    InState(ProposalState),
}

pub open spec fn selects(f: ProposalSelect) -> spec_fn(Proposal) -> bool {
    |p: Proposal| match f {
        ProposalSelect::OfType(t) => p.proposal_type == t,
        ProposalSelect::InState(s) => p.state == s,
    }
}

/// What the module holds: proposals by id, votes by voter and proposal,
/// the proposal counter and the parameters.
pub ghost struct RuntimeGovernanceView {
    pub proposals: Map<Seq<u8>, Proposal>,
    pub votes: Map<(Seq<u8>, Seq<u8>), Vote>,
    pub proposal_counter: u64,
    pub parameters: GovernanceParameters,
}

pub struct GovernanceModule {
    proposals: Table<Hash32, Proposal>,
    votes: Table<(Address, Hash32), Vote>,
    proposal_counter: u64,
    governance_parameters: GovernanceParameters,
}

impl View for GovernanceModule {
    type V = RuntimeGovernanceView;

    closed spec fn view(&self) -> RuntimeGovernanceView {
        RuntimeGovernanceView {
            proposals: self.proposals@,
            votes: self.votes@,
            proposal_counter: self.proposal_counter,
            parameters: self.governance_parameters,
        }
    }
}

/// `p` with `f` applied under `id`, the rest of the view kept.
pub open spec fn with_proposal(v: RuntimeGovernanceView, id: Hash32, p: Proposal) -> RuntimeGovernanceView {
    RuntimeGovernanceView { proposals: v.proposals.insert(id.0@, p), ..v }
}

/// The state a proposal is finalized to against `total_supply`.
pub open spec fn finalized_state(p: Proposal, total_supply: u128) -> ProposalState {
    let total = p.votes_for + p.votes_against;
    let quorum_met = total_supply != 0 && (total * 100) / (total_supply as int) >= p.quorum_threshold;
    let approval = if total > 0 {
        (p.votes_for * 100) / total
    } else {
        0
    };
    if !quorum_met {
        ProposalState::Rejected
    } else if approval >= p.approval_threshold {
        if p.proposal_type == ProposalType::EmergencyBrake {
            ProposalState::Passed
        } else {
            ProposalState::Timelocked
        }
    } else {
        ProposalState::Rejected
    }
}

/// Whether a proposal can be executed at `height`.
pub open spec fn executable(p: Proposal, height: u64) -> bool {
    match p.state {
        ProposalState::Passed => p.proposal_type == ProposalType::EmergencyBrake,
        ProposalState::Timelocked => height >= p.timelock_end,
        _ => false,
    }
}

impl GovernanceModule {
    /// The tables are well formed and every proposal is stored under its id.
    pub closed spec fn wf(&self) -> bool {
        &&& self.proposals.wf()
        &&& self.votes.wf()
        &&& forall|k: Seq<u8>| #[trigger] self.proposals@.dom().contains(k) ==> self.proposals@[k].id.0@ == k
    }

    /// The proposals in the order they were created.
    pub closed spec fn proposal_seq(&self) -> Seq<(Hash32, Proposal)> {
        self.proposals.seq()
    }

    /// The proposal table, as `all_proposals` hands it out.
    pub closed spec fn proposal_table(&self) -> Table<Hash32, Proposal> {
        self.proposals
    }

    pub fn new() -> (r: Self)
        ensures
            r.wf(),
            r@.proposals == Map::<Seq<u8>, Proposal>::empty(),
            r@.votes == Map::<(Seq<u8>, Seq<u8>), Vote>::empty(),
            r@.proposal_counter == 0,
            r@.parameters == default_parameters(),
    {
        GovernanceModule::new_with_parameters(GovernanceParameters::default())
    }

    pub fn new_with_parameters(parameters: GovernanceParameters) -> (r: Self)
        ensures
            r.wf(),
            r@.proposals == Map::<Seq<u8>, Proposal>::empty(),
            r@.votes == Map::<(Seq<u8>, Seq<u8>), Vote>::empty(),
            r@.proposal_counter == 0,
            r@.parameters == parameters,
    {
        GovernanceModule {
            proposals: Table::new(),
            votes: Table::new(),
            proposal_counter: 0,
            governance_parameters: parameters,
        }
    }

    /// Creates a pending proposal. Its id digests the new counter value, the
    /// proposer and the payload; its thresholds follow its type; its voting
    /// end is brought within the allowed periods; its timelock ends one
    /// timelock period (an emergency voting period for an emergency brake)
    /// after height 0.
    pub fn create_proposal(
        &mut self,
        proposer: Address,
        title: String,
        description: String,
        payload: Vec<u8>,
        proposal_type: ProposalType,
        voting_end: u64,
        emergency_scope: EmergencyScope,
    ) -> (r: Result<Hash32, RuntimeError>)
        requires
            old(self).wf(),
            old(self)@.proposal_counter < u64::MAX,
            old(self)@.parameters.min_voting_period <= old(self)@.parameters.max_voting_period,
        ensures
            final(self).wf(),
            r matches Ok(id) && {
                let params = old(self)@.parameters;
                let counter = (old(self)@.proposal_counter + 1) as u64;
                let end = voting_end_for(params, voting_end);
                &&& id.0@ == sha256_spec(proposal_id_input(counter, proposer, payload@))
                &&& final(self)@ == (RuntimeGovernanceView {
                    proposals: old(self)@.proposals.insert(
                        id.0@,
                        Proposal {
                            id,
                            proposer,
                            title,
                            description,
                            payload,
                            proposal_type,
                            state: ProposalState::Pending,
                            votes_for: 0,
                            votes_against: 0,
                            voting_start: 0,
                            voting_end: end,
                            executed: false,
                            timelock_end: timelock_end_for(params, proposal_type),
                            emergency_scope,
                            approval_threshold: thresholds_for(params, proposal_type).0,
                            quorum_threshold: thresholds_for(params, proposal_type).1,
                        },
                    ),
                    proposal_counter: counter,
                    ..old(self)@
                })
            },
    {
        self.proposal_counter = self.proposal_counter + 1;
        let mut data: Vec<u8> = Vec::new();
        push_le(&mut data, self.proposal_counter as u128, 8);
        push_all(&mut data, proposer.0.as_slice());
        push_all(&mut data, payload.as_slice());
        let id = Hash32(sha256(data.as_slice()));
        let (approval_threshold, quorum_threshold) = self.get_thresholds_for_proposal(&proposal_type);
        let min_end = self.governance_parameters.min_voting_period;
        let max_end = self.governance_parameters.max_voting_period;
        let end = if voting_end < min_end {
            min_end
        } else if voting_end > max_end {
            max_end
        } else {
            voting_end
        };
        let current_height: u64 = 0;
        let timelock_end = if proposal_type == ProposalType::EmergencyBrake {
            current_height + self.governance_parameters.emergency_voting_period
        } else {
            current_height + self.governance_parameters.timelock_period
        };
        let proposal = Proposal {
            id,
            proposer,
            title,
            description,
            payload,
            proposal_type,
            state: ProposalState::Pending,
            votes_for: 0,
            votes_against: 0,
            voting_start: 0,
            voting_end: end,
            executed: false,
            timelock_end,
            emergency_scope,
            approval_threshold,
            quorum_threshold,
        };
        self.proposals.insert(id, proposal);
        Ok(id)
    }

    fn get_thresholds_for_proposal(&self, proposal_type: &ProposalType) -> (r: (u32, u32))
        ensures
            r == thresholds_for(self.governance_parameters, *proposal_type),
    {
        match proposal_type {
            ProposalType::EmergencyBrake => (
                self.governance_parameters.emergency_threshold,
                self.governance_parameters.emergency_quorum,
            ),
            ProposalType::ConstitutionalAmendment => (
                self.governance_parameters.constitutional_threshold,
                self.governance_parameters.default_quorum_threshold,
            ),
            _ => (self.governance_parameters.default_approval_threshold, self.governance_parameters.default_quorum_threshold),
        }
    }
    /// Opens voting on a pending proposal at `current_height`.
    pub fn activate_proposal(&mut self, proposal_id: &Hash32, current_height: u64) -> (r: Result<(), RuntimeError>)
        requires
            old(self).wf(),
        ensures
            final(self).wf(),
            r is Ok <==> old(self)@.proposals.dom().contains(proposal_id.0@)
                && old(self)@.proposals[proposal_id.0@].state == ProposalState::Pending,
            r is Err ==> r == Err::<(), RuntimeError>(RuntimeError::InvalidState) && *final(self) == *old(self),
            r is Ok ==> final(self)@ == with_proposal(
                old(self)@,
                *proposal_id,
                Proposal {
                    state: ProposalState::Active,
                    voting_start: current_height,
                    ..old(self)@.proposals[proposal_id.0@]
                },
            ),
    {
        match self.proposals.get(proposal_id) {
            None => {
                return Err(RuntimeError::InvalidState);
            },
            Some(p) => {
                if p.state != ProposalState::Pending {
                    return Err(RuntimeError::InvalidState);
                }
            },
        }
        match self.proposals.get_mut(proposal_id) {
            Some(p) => {
                p.state = ProposalState::Active;
                p.voting_start = current_height;
            },
            None => {},
        }
        Ok(())
    }

    /// Counts `weight` for or against an active proposal and records the
    /// vote (a voter voting again is counted again; the record is replaced).
    pub fn vote(&mut self, voter: Address, proposal_id: &Hash32, support: bool, weight: u128) -> (r: Result<
        (),
        RuntimeError,
    >)
        requires
            old(self).wf(),
            old(self)@.proposals.dom().contains(proposal_id.0@) ==> if support {
                old(self)@.proposals[proposal_id.0@].votes_for + weight <= u128::MAX
            } else {
                old(self)@.proposals[proposal_id.0@].votes_against + weight <= u128::MAX
            },
        ensures
            final(self).wf(),
            r is Ok <==> old(self)@.proposals.dom().contains(proposal_id.0@)
                && old(self)@.proposals[proposal_id.0@].state == ProposalState::Active,
            r is Err ==> r == Err::<(), RuntimeError>(RuntimeError::InvalidState) && *final(self) == *old(self),
            r is Ok ==> {
                let p = old(self)@.proposals[proposal_id.0@];
                final(self)@ == (RuntimeGovernanceView {
                    proposals: old(self)@.proposals.insert(
                        proposal_id.0@,
                        if support {
                            Proposal { votes_for: (p.votes_for + weight) as u128, ..p }
                        } else {
                            Proposal { votes_against: (p.votes_against + weight) as u128, ..p }
                        },
                    ),
                    votes: old(self)@.votes.insert(
                        (voter.0@, proposal_id.0@),
                        Vote { voter, proposal_id: *proposal_id, support, weight },
                    ),
                    ..old(self)@
                })
            },
    {
        match self.proposals.get(proposal_id) {
            None => {
                return Err(RuntimeError::InvalidState);
            },
            Some(p) => {
                if p.state != ProposalState::Active {
                    return Err(RuntimeError::InvalidState);
                }
            },
        }
        match self.proposals.get_mut(proposal_id) {
            Some(p) => {
                if support {
                    p.votes_for = p.votes_for + weight;
                } else {
                    p.votes_against = p.votes_against + weight;
                }
            },
            None => {},
        }
        let vote = Vote { voter, proposal_id: *proposal_id, support, weight };
        self.votes.insert((voter, *proposal_id), vote);
        Ok(())
    }

    /// Decides a proposal (in whatever state) against `total_supply`: see
    /// `finalized_state`.
    pub fn finalize_proposal(&mut self, proposal_id: &Hash32, total_supply: u128) -> (r: Result<
        ProposalState,
        RuntimeError,
    >)
        requires
            old(self).wf(),
            old(self)@.proposals.dom().contains(proposal_id.0@) ==> (old(self)@.proposals[proposal_id.0@].votes_for + old(self)@.proposals[proposal_id.0@].votes_against) * 100
                <= u128::MAX,
        ensures
            final(self).wf(),
            r is Ok <==> old(self)@.proposals.dom().contains(proposal_id.0@),
            r is Err ==> r == Err::<ProposalState, RuntimeError>(RuntimeError::InvalidState) && *final(self) == *old(self),
            r matches Ok(s) ==> {
                let p = old(self)@.proposals[proposal_id.0@];
                &&& s == finalized_state(p, total_supply)
                &&& final(self)@ == with_proposal(old(self)@, *proposal_id, Proposal { state: s, ..p })
            },
    {
        let (votes_for, votes_against, quorum_threshold, approval_threshold, proposal_type) = match self.proposals.get(
            proposal_id,
        ) {
            None => {
                return Err(RuntimeError::InvalidState);
            },
            Some(p) => (p.votes_for, p.votes_against, p.quorum_threshold, p.approval_threshold, p.proposal_type),
        };
        let total_votes = votes_for + votes_against;
        let quorum_met = self.check_quorum(total_votes, total_supply, quorum_threshold);
        let state = if !quorum_met {
            ProposalState::Rejected
        } else {
            let approval_percentage = if total_votes > 0 {
                (votes_for * 100) / total_votes
            } else {
                0
            };
            if approval_percentage >= approval_threshold as u128 {
                if proposal_type == ProposalType::EmergencyBrake {
                    ProposalState::Passed
                } else {
                    ProposalState::Timelocked
                }
            } else {
                ProposalState::Rejected
            }
        };
        match self.proposals.get_mut(proposal_id) {
            Some(p) => {
                p.state = state;
            },
            None => {},
        }
        Ok(state)
    }

    fn check_quorum(&self, total_votes: u128, total_supply: u128, quorum_threshold: u32) -> (r: bool)
        requires
            total_votes * 100 <= u128::MAX,
        ensures
            r == (total_supply != 0 && (total_votes * 100) / (total_supply as int) >= quorum_threshold),
    {
        if total_supply == 0 {
            return false;
        }
        let quorum_percentage = (total_votes * 100) / total_supply;
        quorum_percentage >= quorum_threshold as u128
    }

    /// Executes a passed emergency proposal, or a timelocked one whose
    /// timelock has ended. A passed proposal of another type is left as it is
    /// and answered `Ok` unless it was executed before.
    pub fn execute_proposal(&mut self, proposal_id: &Hash32, current_height: u64) -> (r: Result<(), RuntimeError>)
        requires
            old(self).wf(),
        ensures
            final(self).wf(),
            ({
                let k = proposal_id.0@;
                let p = old(self)@.proposals[k];
                &&& !old(self)@.proposals.dom().contains(k) ==> r == Err::<(), RuntimeError>(
                    RuntimeError::InvalidState,
                ) && *final(self) == *old(self)
                &&& old(self)@.proposals.dom().contains(k) && executable(p, current_height) ==> r is Ok
                    && final(self)@ == with_proposal(
                    old(self)@,
                    *proposal_id,
                    Proposal { state: ProposalState::Executed, executed: true, ..p },
                )
                &&& old(self)@.proposals.dom().contains(k) && !executable(p, current_height) ==> *final(self)
                    == *old(self) && (r is Ok <==> (p.state == ProposalState::Passed && !p.executed))
                &&& r is Err ==> r == Err::<(), RuntimeError>(RuntimeError::InvalidState)
            }),
    {
        let (state, proposal_type, timelock_end, executed) = match self.proposals.get(proposal_id) {
            None => {
                return Err(RuntimeError::InvalidState);
            },
            Some(p) => (p.state, p.proposal_type, p.timelock_end, p.executed),
        };
        match state {
            ProposalState::Passed => {
                if proposal_type == ProposalType::EmergencyBrake {
                    self.execute_proposal_action(proposal_id);
                    return Ok(());
                }
            },
            ProposalState::Timelocked => {
                if current_height >= timelock_end {
                    self.execute_proposal_action(proposal_id);
                    return Ok(());
                } else {
                    return Err(RuntimeError::InvalidState);
                }
            },
            _ => {
                return Err(RuntimeError::InvalidState);
            },
        }
        if executed {
            return Err(RuntimeError::InvalidState);
        }
        Ok(())
    }

    fn execute_proposal_action(&mut self, proposal_id: &Hash32)
        requires
            old(self).wf(),
            old(self)@.proposals.dom().contains(proposal_id.0@),
        ensures
            final(self).wf(),
            final(self)@ == with_proposal(
                old(self)@,
                *proposal_id,
                Proposal { state: ProposalState::Executed, executed: true, ..old(self)@.proposals[proposal_id.0@] },
            ),
    {
        match self.proposals.get_mut(proposal_id) {
            Some(p) => {
                p.state = ProposalState::Executed;
                p.executed = true;
            },
            None => {},
        }
    }

    /// Whether the proposal can be executed at `current_height` (see
    /// `executable`).
    pub fn can_execute_proposal(&self, proposal_id: &Hash32, current_height: u64) -> (r: Result<bool, RuntimeError>)
        requires
            self.wf(),
        ensures
            r is Ok <==> self@.proposals.dom().contains(proposal_id.0@),
            r is Err ==> r == Err::<bool, RuntimeError>(RuntimeError::InvalidState),
            r matches Ok(b) ==> b == executable(self@.proposals[proposal_id.0@], current_height),
    {
        let p = match self.proposals.get(proposal_id) {
            None => {
                return Err(RuntimeError::InvalidState);
            },
            Some(p) => p,
        };
        match p.state {
            ProposalState::Passed => Ok(p.proposal_type == ProposalType::EmergencyBrake),
            ProposalState::Timelocked => Ok(current_height >= p.timelock_end),
            _ => Ok(false),
        }
    }

    /// Marks an active proposal whose voting has ended before
    /// `current_height` as expired; says whether it did.
    pub fn check_proposal_expiration(&mut self, proposal_id: &Hash32, current_height: u64) -> (r: Result<
        bool,
        RuntimeError,
    >)
        requires
            old(self).wf(),
        ensures
            final(self).wf(),
            r is Ok <==> old(self)@.proposals.dom().contains(proposal_id.0@),
            r is Err ==> r == Err::<bool, RuntimeError>(RuntimeError::InvalidState) && *final(self) == *old(self),
            r matches Ok(b) ==> {
                let p = old(self)@.proposals[proposal_id.0@];
                &&& b == (current_height > p.voting_end && p.state == ProposalState::Active)
                &&& b ==> final(self)@ == with_proposal(
                    old(self)@,
                    *proposal_id,
                    Proposal { state: ProposalState::Expired, ..p },
                )
                &&& !b ==> *final(self) == *old(self)
            },
    {
        let (voting_end, state) = match self.proposals.get(proposal_id) {
            None => {
                return Err(RuntimeError::InvalidState);
            },
            Some(p) => (p.voting_end, p.state),
        };
        if current_height > voting_end && state == ProposalState::Active {
            match self.proposals.get_mut(proposal_id) {
                Some(p) => {
                    p.state = ProposalState::Expired;
                },
                None => {},
            }
            Ok(true)
        } else {
            Ok(false)
        }
    }

    pub fn get_governance_parameters(&self) -> (r: &GovernanceParameters)
        ensures
            *r == self@.parameters,
    {
        &self.governance_parameters
    }

    pub fn update_governance_parameters(&mut self, new_parameters: GovernanceParameters)
        requires
            old(self).wf(),
        ensures
            final(self).wf(),
            final(self)@ == (RuntimeGovernanceView { parameters: new_parameters, ..old(self)@ }),
    {
        self.governance_parameters = new_parameters;
    }

    /// The share of the votes in favour, in percent (0 without votes).
    pub fn get_proposal_approval_percentage(&self, proposal_id: &Hash32) -> (r: Result<u32, RuntimeError>)
        requires
            self.wf(),
            self@.proposals.dom().contains(proposal_id.0@) ==> self@.proposals[proposal_id.0@].votes_for
                + self@.proposals[proposal_id.0@].votes_against <= u128::MAX && self@.proposals[proposal_id.0@].votes_for
                * 100 <= u128::MAX,
        ensures
            r is Ok <==> self@.proposals.dom().contains(proposal_id.0@),
            r is Err ==> r == Err::<u32, RuntimeError>(RuntimeError::InvalidState),
            r matches Ok(pct) ==> {
                let p = self@.proposals[proposal_id.0@];
                let total = p.votes_for + p.votes_against;
                pct == if total == 0 {
                    0
                } else {
                    ((p.votes_for * 100) / total) as u32
                }
            },
    {
        let p = match self.proposals.get(proposal_id) {
            None => {
                return Err(RuntimeError::InvalidState);
            },
            Some(p) => p,
        };
        let total_votes = p.votes_for + p.votes_against;
        if total_votes == 0 {
            Ok(0)
        } else {
            Ok(((p.votes_for * 100) / total_votes) as u32)
        }
    }

    /// The votes cast as a share of `total_supply`, in percent (0 when the
    /// supply is 0).
    pub fn get_proposal_quorum_percentage(&self, proposal_id: &Hash32, total_supply: u128) -> (r: Result<
        u32,
        RuntimeError,
    >)
        requires
            self.wf(),
            self@.proposals.dom().contains(proposal_id.0@) ==> (self@.proposals[proposal_id.0@].votes_for
                + self@.proposals[proposal_id.0@].votes_against) * 100 <= u128::MAX,
        ensures
            r is Ok <==> self@.proposals.dom().contains(proposal_id.0@),
            r is Err ==> r == Err::<u32, RuntimeError>(RuntimeError::InvalidState),
            r matches Ok(pct) ==> {
                let p = self@.proposals[proposal_id.0@];
                let total = p.votes_for + p.votes_against;
                pct == if total_supply == 0 {
                    0
                } else {
                    ((total * 100) / (total_supply as int)) as u32
                }
            },
    {
        let p = match self.proposals.get(proposal_id) {
            None => {
                return Err(RuntimeError::InvalidState);
            },
            Some(p) => p,
        };
        let total_votes = p.votes_for + p.votes_against;
        if total_supply == 0 {
            Ok(0)
        } else {
            Ok(((total_votes * 100) / total_supply) as u32)
        }
    }

    pub fn get_proposal(&self, proposal_id: &Hash32) -> (r: Option<&Proposal>)
        requires
            self.wf(),
        ensures
            r is Some <==> self@.proposals.dom().contains(proposal_id.0@),
            r matches Some(p) ==> *p == self@.proposals[proposal_id.0@],
    {
        self.proposals.get(proposal_id)
    }

    pub fn all_proposals(&self) -> (r: &Table<Hash32, Proposal>)
        requires
            self.wf(),
        ensures
            r.wf(),
            r@ == self@.proposals,
            *r == self.proposal_table(),
    {
        &self.proposals
    }

    fn select(&self, f: ProposalSelect) -> (r: Vec<&Proposal>)
        requires
            self.wf(),
        ensures
            derefs(r@) == proposals_where(self.proposal_seq(), selects(f)),
    {
        let n = self.proposals.len();
        let ghost src = self.proposals.seq();
        let mut out: Vec<&Proposal> = Vec::new();
        let mut i: usize = 0;
        while i < n
            invariant
                src == self.proposals.seq(),
                n == src.len(),
                i <= n,
                derefs(out@) == proposals_where(src.take(i as int), selects(f)),
            decreases n - i,
        {
            let p = self.proposals.value_at(i);
            let keep = match f {
                ProposalSelect::OfType(t) => p.proposal_type == t,
                ProposalSelect::InState(s) => p.state == s,
            };
            proof {
                assert(src.take(i + 1).drop_last() =~= src.take(i as int));
                assert(src.take(i + 1).last() == src[i as int]);
            }
            let ghost before = out@;
            if keep {
                out.push(p);
                assert(derefs(out@) =~= derefs(before) + seq![*p]);
            } else {
                assert(derefs(out@) =~= derefs(before) + Seq::<Proposal>::empty());
            }
            i = i + 1;
        }
        assert(src.take(n as int) =~= src);
        out
    }

    /// The proposals of type `proposal_type`, in creation order.
    pub fn get_proposals_by_type(&self, proposal_type: ProposalType) -> (r: Vec<&Proposal>)
        requires
            self.wf(),
        ensures
            derefs(r@) == proposals_where(self.proposal_seq(), selects(ProposalSelect::OfType(proposal_type))),
    {
        self.select(ProposalSelect::OfType(proposal_type))
    }

    /// The active proposals, in creation order.
    pub fn get_active_proposals(&self) -> (r: Vec<&Proposal>)
        requires
            self.wf(),
        ensures
            derefs(r@) == proposals_where(self.proposal_seq(), selects(ProposalSelect::InState(ProposalState::Active))),
    {
        self.select(ProposalSelect::InState(ProposalState::Active))
    }

    /// The timelocked proposals, in creation order.
    pub fn get_timelocked_proposals(&self) -> (r: Vec<&Proposal>)
        requires
            self.wf(),
        ensures
            derefs(r@) == proposals_where(
                self.proposal_seq(),
                selects(ProposalSelect::InState(ProposalState::Timelocked)),
            ),
    {
        self.select(ProposalSelect::InState(ProposalState::Timelocked))
    }
}

impl Default for GovernanceModule {
    fn default() -> (r: Self)
        ensures
            r.wf(),
            r@.proposals == Map::<Seq<u8>, Proposal>::empty(),
            r@.votes == Map::<(Seq<u8>, Seq<u8>), Vote>::empty(),
            r@.proposal_counter == 0,
            r@.parameters == default_parameters(),
    {
        GovernanceModule::new()
    }
}

} // verus!
