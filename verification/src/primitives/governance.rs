//! Governance records: proposals and their tallies, votes, thresholds,
//! delegations, emergency powers and governance parameters.

use vstd::prelude::*;
use crate::bytes::push_all;
use crate::digest::{sha256, sha256_spec};
use crate::kernel::{Address, Hash32};
use crate::primitives::api::utf8;

verus! {

#[derive(Clone, Debug)]
pub struct Proposal {
    pub proposal_id: Hash32,
    pub proposal_type: ProposalType,
    pub proposer: Address,
    pub payload: Vec<u8>,
    pub description: String,
    pub voting_start: u64,
    pub voting_end: u64,
    pub timelock_end: u64,
    pub status: ProposalStatus,
    pub bond_amount: u128,
    pub yes_votes: u128,
    pub no_votes: u128,
    pub abstain_votes: u128,
}

/// All votes cast on a proposal.
pub open spec fn votes_of(p: Proposal) -> int {
    p.yes_votes + p.no_votes + p.abstain_votes
}

impl Proposal {
    /// A pending proposal whose id digests its proposer, payload and
    /// description.
    pub fn new(
        proposer: Address,
        proposal_type: ProposalType,
        payload: Vec<u8>,
        description: String,
        voting_period: u64,
        bond_amount: u128,
    ) -> (r: Self)
        ensures
            r.proposal_id.0@ == sha256_spec(proposer.0@ + payload@ + utf8(description@)),
            r.proposal_type == proposal_type && r.proposer == proposer,
            r.payload == payload && r.description == description,
            r.voting_start == 0 && r.voting_end == 0 && r.timelock_end == 0,
            r.status == ProposalStatus::Pending,
            r.bond_amount == bond_amount,
            r.yes_votes == 0 && r.no_votes == 0 && r.abstain_votes == 0,
    {
        let mut input: Vec<u8> = Vec::new();
        push_all(&mut input, proposer.0.as_slice());
        push_all(&mut input, payload.as_slice());
        push_all(&mut input, description.as_str().as_bytes());
        let proposal_id = sha256(input.as_slice());
        Proposal {
            proposal_id: Hash32(proposal_id),
            proposal_type,
            proposer,
            payload,
            description,
            voting_start: 0,
            voting_end: 0,
            timelock_end: 0,
            status: ProposalStatus::Pending,
            bond_amount,
            yes_votes: 0,
            no_votes: 0,
            abstain_votes: 0,
        }
    }

    pub fn total_votes(&self) -> (r: u128)
        requires
            votes_of(*self) <= u128::MAX,
        ensures
            r == votes_of(*self),
    {
        self.yes_votes + self.no_votes + self.abstain_votes
    }

    /// The share of yes votes in percent, cut to 32 bits; `None` without
    /// votes. The supply is not used.
    pub fn approval_percentage(&self, total_supply: u128) -> (r: Option<u32>)
        requires
            votes_of(*self) <= u128::MAX,
            self.yes_votes * 100 <= u128::MAX,
        ensures
            r is Some <==> votes_of(*self) != 0,
            r matches Some(p) ==> p == ((self.yes_votes * 100) / votes_of(*self)) as u32,
    {
        let total = self.total_votes();
        if total == 0 {
            return None;
        }
        Some(((self.yes_votes * 100) / total) as u32)
    }

    /// The votes as a share of `total_supply` in percent, cut to 32 bits;
    /// `None` for a zero supply.
    pub fn quorum_percentage(&self, total_supply: u128) -> (r: Option<u32>)
        requires
            votes_of(*self) * 100 <= u128::MAX,
        ensures
            r is Some <==> total_supply != 0,
            r matches Some(p) ==> p == ((votes_of(*self) * 100) / (total_supply as int)) as u32,
    {
        let total = self.total_votes();
        if total_supply == 0 {
            return None;
        }
        Some(((total * 100) / total_supply) as u32)
    }
}

#[derive(Clone, Copy, Debug, PartialEq, Eq, Structural)]
pub enum ProposalType {
    ParameterChange,
    RuntimeUpgrade,
    ModelGovernance,
    Treasury,
    Emergency,
}

#[derive(Clone, Copy, Debug, PartialEq, Eq, Structural)]
pub enum ProposalStatus {
    Pending,
    Voting,
    Approved,
    Rejected,
    Executed,
    FailedExecution,
    Cancelled,
}

impl Default for ProposalStatus {
    fn default() -> (r: Self)
        ensures
            r == ProposalStatus::Pending,
    {
        ProposalStatus::Pending
    }
}

impl ProposalStatus {
    /// Whether the proposal has reached an end state.
    pub fn is_finalized(&self) -> (r: bool)
        ensures
            r == (*self != ProposalStatus::Pending && *self != ProposalStatus::Voting),
    {
        match self {
            ProposalStatus::Approved | ProposalStatus::Rejected | ProposalStatus::Executed
            | ProposalStatus::FailedExecution | ProposalStatus::Cancelled => true,
            _ => false,
        }
    }
}

#[derive(Clone, Copy, Debug)]
pub struct Vote {
    pub proposal_id: Hash32,
    pub voter: Address,
    pub vote: VoteChoice,
    pub weight: u128,
    pub timestamp: u64,
}

#[derive(Clone, Copy, Debug, PartialEq, Eq, Structural)]
pub enum VoteChoice {
    Yes,
    No,
    Abstain,
}

/// The quorum and approval, in percent, that a proposal needs.
#[derive(Clone, Copy, Debug, PartialEq, Eq, Structural)]
pub struct VotingThreshold {
    pub quorum: u32,
    pub approval: u32,
}

impl VotingThreshold {
    pub fn parameter_change() -> (r: Self)
        ensures
            r == (VotingThreshold { quorum: 20, approval: 50 }),
    {
        VotingThreshold { quorum: 20, approval: 50 }
    }

    pub fn runtime_upgrade() -> (r: Self)
        ensures
            r == (VotingThreshold { quorum: 40, approval: 66 }),
    {
        VotingThreshold { quorum: 40, approval: 66 }
    }

    pub fn treasury() -> (r: Self)
        ensures
            r == (VotingThreshold { quorum: 25, approval: 50 }),
    {
        VotingThreshold { quorum: 25, approval: 50 }
    }

    pub fn emergency() -> (r: Self)
        ensures
            r == (VotingThreshold { quorum: 50, approval: 75 }),
    {
        VotingThreshold { quorum: 50, approval: 75 }
    }

    pub fn constitutional() -> (r: Self)
        ensures
            r == (VotingThreshold { quorum: 50, approval: 75 }),
    {
        VotingThreshold { quorum: 50, approval: 75 }
    }

    /// Whether both the quorum and the approval are met.
    pub fn is_approved(&self, quorum_pct: u32, approval_pct: u32) -> (r: bool)
        ensures
            r == (quorum_pct >= self.quorum && approval_pct >= self.approval),
    {
        quorum_pct >= self.quorum && approval_pct >= self.approval
    }
}

/// Meeting a threshold with some figures, and then more, still meets it.
pub proof fn lemma_threshold_monotone(t: VotingThreshold, q1: u32, a1: u32, q2: u32, a2: u32)
    requires
        q1 >= t.quorum && a1 >= t.approval,
        q2 >= q1,
        a2 >= a1,
    ensures
        q2 >= t.quorum && a2 >= t.approval,
{
}

#[derive(Clone, Copy, Debug)]
pub struct Delegation {
    pub delegator: Address,
    pub delegate: Address,
    pub proposal_type: Option<ProposalType>,
    pub balance: u128,
    pub created_at: u64,
}

#[derive(Clone, Copy, Debug)]
pub struct EmergencyPowers {
    pub active: bool,
    pub activated_at: u64,
    pub expires_at: u64,
    pub scope: EmergencyScope,
    pub activator: Address,
}

impl EmergencyPowers {
    /// Active powers from block 0 for `duration_blocks` blocks, by the zero
    /// address.
    pub fn new(scope: EmergencyScope, duration_blocks: u64) -> (r: Self)
        ensures
            r.active && r.activated_at == 0 && r.expires_at == duration_blocks,
            r.scope == scope,
            r.activator.0@ == crate::bytes::zeros32(),
    {
        EmergencyPowers {
            active: true,
            activated_at: 0,
            expires_at: duration_blocks,
            scope,
            activator: Address::from_bytes(crate::bytes::zero32()),
        }
    }

    pub fn is_expired(&self, current_block: u64) -> (r: bool)
        ensures
            r == (!self.active || current_block > self.expires_at),
    {
        !self.active || current_block > self.expires_at
    }
}

#[derive(Clone, Copy, Debug)]
pub enum EmergencyScope {
    PauseInference,
    DisableModel { model_id: Hash32 },
    FreezeOperator { operator: Address },
    HaltShardRegistry,
    FullEmergency,
}

#[derive(Clone, Copy, Debug)]
pub struct GovernanceParameters {
    pub voting_period_blocks: u64,
    pub timelock_period_blocks: u64,
    pub proposal_bond: u128,
    pub emergency_duration_blocks: u64,
    pub thresholds: GovernanceThresholds,
}

#[derive(Clone, Copy, Debug, PartialEq, Eq, Structural)]
pub struct GovernanceThresholds {
    pub parameter_change: VotingThreshold,
    pub runtime_upgrade: VotingThreshold,
    pub treasury: VotingThreshold,
    pub emergency: VotingThreshold,
    pub constitutional: VotingThreshold,
}

impl Default for GovernanceParameters {
    fn default() -> (r: Self)
        ensures
            r.voting_period_blocks == 10080 && r.timelock_period_blocks == 10080,
            r.proposal_bond == 1000 && r.emergency_duration_blocks == 14400,
            r.thresholds == (GovernanceThresholds {
                parameter_change: VotingThreshold { quorum: 20, approval: 50 },
                runtime_upgrade: VotingThreshold { quorum: 40, approval: 66 },
                treasury: VotingThreshold { quorum: 25, approval: 50 },
                emergency: VotingThreshold { quorum: 50, approval: 75 },
                constitutional: VotingThreshold { quorum: 50, approval: 75 },
            }),
    {
        GovernanceParameters {
            voting_period_blocks: 10080,
            timelock_period_blocks: 10080,
            proposal_bond: 1000,
            emergency_duration_blocks: 14400,
            thresholds: GovernanceThresholds {
                parameter_change: VotingThreshold::parameter_change(),
                runtime_upgrade: VotingThreshold::runtime_upgrade(),
                treasury: VotingThreshold::treasury(),
                emergency: VotingThreshold::emergency(),
                constitutional: VotingThreshold::constitutional(),
            },
        }
    }
}

} // verus!
