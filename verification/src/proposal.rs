//! Proposals, votes and the rules that settle them.

use vstd::prelude::*;
use crate::address::Address;
use crate::bps::{reaches, reaches_bps, share, share_of};
use crate::storage_types::SavingsError;

verus! {

/// The side a vote is cast for.
#[derive(Clone, Copy, Debug, PartialEq, Eq, Structural)]
pub enum VoteType {
    For,
    Against,
    Abstain,
}

impl VoteType {
    /// The number by which the side is known outside the platform.
    pub open spec fn spec_code(self) -> u32 {
        match self {
            VoteType::For => 1,
            VoteType::Against => 2,
            VoteType::Abstain => 3,
        }
    }

    /// See [`VoteType::spec_code`].
    #[verifier::when_used_as_spec(spec_code)]
    pub fn code(self) -> (c: u32)
        ensures
            c == self.spec_code(),
    {
        match self {
            VoteType::For => 1,
            VoteType::Against => 2,
            VoteType::Abstain => 3,
        }
    }

    /// The side known under `code`; `InvalidInput` if there is none.
    pub fn from_code(code: u32) -> (side: Result<VoteType, SavingsError>)
        ensures
            code == 1 ==> side == Ok::<VoteType, SavingsError>(VoteType::For),
            code == 2 ==> side == Ok::<VoteType, SavingsError>(VoteType::Against),
            code == 3 ==> side == Ok::<VoteType, SavingsError>(VoteType::Abstain),
            code < 1 || code > 3 ==> side == Err::<VoteType, SavingsError>(
                SavingsError::InvalidInput,
            ),
    {
        if code == 1 {
            Ok(VoteType::For)
        } else if code == 2 {
            Ok(VoteType::Against)
        } else if code == 3 {
            Ok(VoteType::Abstain)
        } else {
            Err(SavingsError::InvalidInput)
        }
    }
}

/// Where a proposal stands in its life.
#[derive(Clone, Copy, Debug, PartialEq, Eq, Structural)]
pub enum ProposalState {
    /// Made, voting not yet open. Creation opens voting at once, so no
    /// stored proposal is in this state.
    Pending,
    /// Votes are accepted until the voting window ends.
    Active,
    /// The window has ended with a majority in favour and a quorum.
    Succeeded,
    /// The window has ended without them.
    Defeated,
    /// Succeeded and waiting for the execution delay to pass.
    Queued,
    /// Carried out; nothing follows.
    Executed,
    /// Withdrawn; nothing follows.
    Cancelled,
}

impl ProposalState {
    /// Whether a proposal in state `self` can come to be in state `next`
    /// in one step. A proposal is active from its creation; it is settled
    /// as succeeded or defeated; a succeeded one is queued and a queued one
    /// executed; and until it is executed or defeated it can be cancelled.
    pub open spec fn steps_to(self, next: ProposalState) -> bool {
        match (self, next) {
            (ProposalState::Pending, ProposalState::Active) => true,
            (ProposalState::Active, ProposalState::Succeeded) => true,
            (ProposalState::Active, ProposalState::Defeated) => true,
            (ProposalState::Succeeded, ProposalState::Queued) => true,
            (ProposalState::Queued, ProposalState::Executed) => true,
            (ProposalState::Active, ProposalState::Cancelled) => true,
            (ProposalState::Succeeded, ProposalState::Cancelled) => true,
            (ProposalState::Queued, ProposalState::Cancelled) => true,
            _ => false,
        }
    }

    /// Whether nothing follows this state.
    pub open spec fn is_final(self) -> bool {
        self == ProposalState::Defeated || self == ProposalState::Executed || self
            == ProposalState::Cancelled
    }

    /// Whether a proposal in this state can still be withdrawn.
    pub open spec fn spec_cancellable(self) -> bool {
        self == ProposalState::Active || self == ProposalState::Succeeded || self
            == ProposalState::Queued
    }

    /// See [`ProposalState::spec_cancellable`].
    #[verifier::when_used_as_spec(spec_cancellable)]
    pub fn cancellable(self) -> (r: bool)
        ensures
            r == self.spec_cancellable(),
    {
        match self {
            ProposalState::Active | ProposalState::Succeeded | ProposalState::Queued => true,
            _ => false,
        }
    }
}

/// The weight a vote counts for: the voter's power, limited to
/// `max_weight_bps` basis points of the total voting power unless that
/// limit is zero.
pub open spec fn effective_weight(power: int, total_supply: int, max_weight_bps: int) -> int {
    if max_weight_bps == 0 || power <= share(total_supply, max_weight_bps) {
        power
    } else {
        share(total_supply, max_weight_bps)
    }
}

/// Computes [`effective_weight`].
pub fn clamp_weight(power: i128, total_supply: i128, max_weight_bps: u32) -> (weight: i128)
    requires
        power >= 0,
        total_supply >= 0,
    ensures
        weight == effective_weight(power as int, total_supply as int, max_weight_bps as int),
        0 <= weight <= power,
{
    if max_weight_bps == 0 {
        return power;
    }
    assert(share(total_supply as int, max_weight_bps as int) >= 0) by (nonlinear_arith)
        requires
            total_supply >= 0,
            max_weight_bps >= 0,
    ;
    match share_of(total_supply as u128, max_weight_bps) {
        None => power,
        Some(cap) => if (power as u128) <= cap {
            power
        } else {
            cap as i128
        },
    }
}

/// A proposal and the running tally of its votes.
#[derive(Clone, Debug, PartialEq, Eq)]
pub struct Proposal {
    /// Unique; assigned at creation, in increasing order.
    pub id: u64,
    pub creator: Address,
    pub description: String,
    pub created_at: u64,
    /// `created_at` plus the voting period in force at creation.
    pub voting_ends_at: u64,
    pub for_weight: i128,
    pub against_weight: i128,
    pub abstain_weight: i128,
    pub state: ProposalState,
    /// The total voting power at creation. Quorum and the per-vote limit
    /// are measured against it, never against a later total.
    pub total_supply_snapshot: i128,
}

impl Proposal {
    /// No tally is negative, their sum fits in 128 bits, and the window
    /// does not end before it starts.
    pub open spec fn wf(self) -> bool {
        &&& self.for_weight >= 0
        &&& self.against_weight >= 0
        &&& self.abstain_weight >= 0
        &&& self.participation() <= i128::MAX
        &&& self.total_supply_snapshot >= 0
        &&& self.created_at <= self.voting_ends_at
    }

    /// Decides [`Proposal::wf`].
    pub fn is_well_formed(&self) -> (r: bool)
        ensures
            r == self.wf(),
    {
        if self.for_weight < 0 || self.against_weight < 0 || self.abstain_weight < 0 {
            return false;
        }
        if self.total_supply_snapshot < 0 || self.created_at > self.voting_ends_at {
            return false;
        }
        match self.for_weight.checked_add(self.against_weight) {
            None => false,
            Some(decided) => decided.checked_add(self.abstain_weight).is_some(),
        }
    }

    /// The weight of all votes cast, whatever their side.
    pub open spec fn participation(self) -> int {
        self.for_weight + self.against_weight + self.abstain_weight
    }

    /// The tally of one side.
    pub open spec fn tally(self, side: VoteType) -> int {
        match side {
            VoteType::For => self.for_weight as int,
            VoteType::Against => self.against_weight as int,
            VoteType::Abstain => self.abstain_weight as int,
        }
    }

    /// Whether a vote is accepted at time `now`.
    pub open spec fn spec_accepts_votes(&self, now: u64) -> bool {
        self.state == ProposalState::Active && now < self.voting_ends_at
    }

    /// See [`Proposal::spec_accepts_votes`].
    #[verifier::when_used_as_spec(spec_accepts_votes)]
    pub fn accepts_votes(&self, now: u64) -> (r: bool)
        ensures
            r == self.spec_accepts_votes(now),
    {
        self.state == ProposalState::Active && now < self.voting_ends_at
    }

    /// Whether the tally carries the proposal: more weight in favour than
    /// against, and participation of at least `quorum_bps` basis points of
    /// the total voting power at creation.
    pub open spec fn spec_carries(&self, quorum_bps: u32) -> bool {
        &&& self.for_weight > self.against_weight
        &&& reaches(self.participation(), self.total_supply_snapshot as int, quorum_bps as int)
    }

    /// See [`Proposal::spec_carries`].
    #[verifier::when_used_as_spec(spec_carries)]
    pub fn carries(&self, quorum_bps: u32) -> (r: bool)
        requires
            self.wf(),
        ensures
            r == self.spec_carries(quorum_bps),
    {
        let cast: i128 = self.for_weight + self.against_weight + self.abstain_weight;
        self.for_weight > self.against_weight && reaches_bps(
            cast as u128,
            self.total_supply_snapshot as u128,
            quorum_bps,
        )
    }

    /// The state the proposal is in once it has been looked at at time
    /// `now`: an active proposal whose window has ended is settled by its
    /// tally; every other proposal stays as it is.
    pub open spec fn spec_settled_state(&self, quorum_bps: u32, now: u64) -> ProposalState {
        if self.state == ProposalState::Active && now >= self.voting_ends_at {
            if self.spec_carries(quorum_bps) {
                ProposalState::Succeeded
            } else {
                ProposalState::Defeated
            }
        } else {
            self.state
        }
    }

    /// See [`Proposal::spec_settled_state`].
    #[verifier::when_used_as_spec(spec_settled_state)]
    pub fn settled_state(&self, quorum_bps: u32, now: u64) -> (state: ProposalState)
        requires
            self.wf(),
        ensures
            state == self.spec_settled_state(quorum_bps, now),
    {
        if self.state == ProposalState::Active && now >= self.voting_ends_at {
            if self.carries(quorum_bps) {
                ProposalState::Succeeded
            } else {
                ProposalState::Defeated
            }
        } else {
            self.state
        }
    }

    /// Whether a queued proposal may be carried out at time `now`: the
    /// execution delay has passed since the end of the voting window.
    pub open spec fn spec_executable(&self, execution_delay_seconds: u64, now: u64) -> bool {
        self.state == ProposalState::Queued && now >= self.voting_ends_at
            + execution_delay_seconds
    }

    /// See [`Proposal::spec_executable`].
    #[verifier::when_used_as_spec(spec_executable)]
    pub fn executable(&self, execution_delay_seconds: u64, now: u64) -> (r: bool)
        ensures
            r == self.spec_executable(execution_delay_seconds, now),
    {
        let ready_at: u128 = self.voting_ends_at as u128 + execution_delay_seconds as u128;
        self.state == ProposalState::Queued && now as u128 >= ready_at
    }

    /// The proposal with `weight` added to the tally of `side`.
    pub open spec fn with_vote(self, side: VoteType, weight: i128) -> Proposal {
        match side {
            VoteType::For => Proposal { for_weight: (self.for_weight + weight) as i128, ..self },
            VoteType::Against => Proposal {
                against_weight: (self.against_weight + weight) as i128,
                ..self
            },
            VoteType::Abstain => Proposal {
                abstain_weight: (self.abstain_weight + weight) as i128,
                ..self
            },
        }
    }

    /// Whether `later` agrees with this proposal in all that is fixed at
    /// creation.
    pub open spec fn same_origin(self, later: Proposal) -> bool {
        &&& later.id == self.id
        &&& later.creator == self.creator
        &&& later.description == self.description
        &&& later.created_at == self.created_at
        &&& later.voting_ends_at == self.voting_ends_at
        &&& later.total_supply_snapshot == self.total_supply_snapshot
    }

    /// The proposal in another state, its tallies untouched.
    pub open spec fn with_state(self, state: ProposalState) -> Proposal {
        Proposal { state, ..self }
    }

    /// Adds `weight` to the tally of `side`.
    pub fn add_vote(&mut self, side: VoteType, weight: i128)
        requires
            old(self).wf(),
            weight >= 0,
            old(self).participation() + weight <= i128::MAX,
        ensures
            *final(self) == old(self).with_vote(side, weight),
            final(self).wf(),
            final(self).tally(side) == old(self).tally(side) + weight,
            final(self).participation() == old(self).participation() + weight,
    {
        match side {
            VoteType::For => {
                self.for_weight = self.for_weight + weight;
            },
            VoteType::Against => {
                self.against_weight = self.against_weight + weight;
            },
            VoteType::Abstain => {
                self.abstain_weight = self.abstain_weight + weight;
            },
        }
    }
}

/// The record of one vote. It is written when the vote is cast and never
/// changes afterwards.
#[derive(Clone, Copy, Debug, PartialEq, Eq)]
pub struct VoteReceipt {
    pub proposal_id: u64,
    pub voter: Address,
    pub vote_type: VoteType,
    /// The weight the vote counted for.
    pub weight: i128,
    pub cast_at: u64,
}

impl VoteReceipt {
    /// Whether the receipt is that of `voter` on proposal `proposal_id`.
    pub open spec fn is_for(self, proposal_id: u64, voter: Address) -> bool {
        self.proposal_id == proposal_id && self.voter == voter
    }
}

} // verus!
