//! What the engine does, said over sequences.
//!
//! [`GovernanceState`] is what the engine holds, as plain mathematical
//! values. For every call of the engine two functions say what the call
//! returns and what it leaves behind. The engine's own contracts refer to
//! them, and the laws are proved of them.

use vstd::prelude::*;
use vstd::utf8::encode_utf8;
use crate::address::Address;
use crate::config::VotingConfig;
use crate::events::{GovernanceEvent, ProposalCreated, VoteCast};
use crate::proposal::{effective_weight, Proposal, ProposalState, VoteReceipt, VoteType};
use crate::storage_types::SavingsError;
use crate::store::StoreState;

verus! {

/// The length of `text` in bytes.
pub open spec fn byte_len(text: Seq<char>) -> nat {
    encode_utf8(text).len()
}

/// What the engine holds: the store, the events published so far, oldest
/// first, and the longest description it accepts, in bytes.
pub struct GovernanceState {
    pub store: StoreState,
    pub events: Seq<GovernanceEvent>,
    pub max_description_len: usize,
}

impl GovernanceState {
    /// The engine before anything has happened.
    pub open spec fn empty(max_description_len: usize) -> GovernanceState {
        GovernanceState { store: StoreState::empty(), events: Seq::empty(), max_description_len }
    }

    /// The invariant of the engine: that of its store.
    pub open spec fn wf(self) -> bool {
        self.store.wf()
    }

    // Creation.

    /// Whether a description is neither empty nor too long.
    pub open spec fn accepts_description(self, description: Seq<char>) -> bool {
        description.len() > 0 && byte_len(description) <= self.max_description_len
    }

    /// Whether `create_proposal` can be asked at all: the total voting
    /// power is not negative, and the voting window ends at a time that a
    /// 64-bit clock can show.
    pub open spec fn create_fits(config: VotingConfig, total_supply: i128, now: u64) -> bool {
        total_supply >= 0 && now + config.voting_period_seconds <= u64::MAX
    }

    /// What `create_proposal` returns: the identifier of the new proposal,
    /// or why it was refused.
    pub open spec fn create_result(
        self,
        config: VotingConfig,
        description: Seq<char>,
        creator_power: i128,
    ) -> Result<u64, SavingsError> {
        if creator_power < config.proposal_threshold {
            Err(SavingsError::Unauthorized)
        } else if !self.accepts_description(description) {
            Err(SavingsError::InvalidInput)
        } else {
            Ok(self.store.next_id() as u64)
        }
    }

    /// The proposal that an accepted `create_proposal` stores.
    pub open spec fn created_proposal(
        self,
        config: VotingConfig,
        creator: Address,
        description: String,
        total_supply: i128,
        now: u64,
    ) -> Proposal {
        Proposal {
            id: self.store.next_id() as u64,
            creator,
            description,
            created_at: now,
            voting_ends_at: (now + config.voting_period_seconds) as u64,
            for_weight: 0,
            against_weight: 0,
            abstain_weight: 0,
            state: ProposalState::Active,
            total_supply_snapshot: total_supply,
        }
    }

    /// What `create_proposal` leaves behind: one more proposal and one
    /// more event, or, after a refusal, everything as it was.
    pub open spec fn after_create(
        self,
        config: VotingConfig,
        creator: Address,
        description: String,
        creator_power: i128,
        total_supply: i128,
        now: u64,
    ) -> GovernanceState {
        match self.create_result(config, description@, creator_power) {
            Ok(proposal_id) => GovernanceState {
                store: self.store.with_proposal(
                    self.created_proposal(config, creator, description, total_supply, now),
                ),
                events: self.events.push(
                    GovernanceEvent::Created(ProposalCreated { proposal_id, creator, description }),
                ),
                ..self
            },
            Err(_) => self,
        }
    }

    // Voting.

    /// The weight that a vote of `power` on proposal `proposal_id` counts
    /// for.
    pub open spec fn weight_on(self, config: VotingConfig, proposal_id: u64, power: i128) -> int {
        effective_weight(
            power as int,
            self.store.proposal(proposal_id).total_supply_snapshot as int,
            config.max_weight_bps as int,
        )
    }

    /// Whether the tallies of proposal `proposal_id` have room for a vote
    /// of `power`: with its weight added, the weight of all votes cast is
    /// still a 128-bit signed amount.
    pub open spec fn vote_fits(self, config: VotingConfig, proposal_id: u64, power: i128) -> bool {
        self.store.has_proposal(proposal_id) && power > 0 ==> self.store.proposal(
            proposal_id,
        ).participation() + self.weight_on(config, proposal_id, power) <= i128::MAX
    }

    /// What `vote` returns: the weight the vote counted for, or why it was
    /// refused.
    pub open spec fn vote_result(
        self,
        config: VotingConfig,
        proposal_id: u64,
        voter: Address,
        voter_authorized: bool,
        power: i128,
        now: u64,
    ) -> Result<i128, SavingsError> {
        if !voter_authorized {
            Err(SavingsError::Unauthorized)
        } else if !self.store.has_proposal(proposal_id) {
            Err(SavingsError::NotFound)
        } else if !self.store.proposal(proposal_id).spec_accepts_votes(now) {
            Err(SavingsError::VotingClosed)
        } else if self.store.has_receipt(proposal_id, voter) {
            Err(SavingsError::AlreadyVoted)
        } else if power <= 0 {
            Err(SavingsError::NoVotingPower)
        } else {
            Ok(self.weight_on(config, proposal_id, power) as i128)
        }
    }

    /// What `vote` leaves behind: one more receipt, its weight added to
    /// the tally of its side, and one more event; or, after a refusal,
    /// everything as it was.
    pub open spec fn after_vote(
        self,
        config: VotingConfig,
        proposal_id: u64,
        vote_type: VoteType,
        voter: Address,
        voter_authorized: bool,
        power: i128,
        now: u64,
    ) -> GovernanceState {
        match self.vote_result(config, proposal_id, voter, voter_authorized, power, now) {
            Ok(weight) => GovernanceState {
                store: self.store.with_vote(
                    VoteReceipt { proposal_id, voter, vote_type, weight, cast_at: now },
                ),
                events: self.events.push(
                    GovernanceEvent::Voted(VoteCast { proposal_id, voter, vote_type, weight }),
                ),
                ..self
            },
            Err(_) => self,
        }
    }

    // Settling, queueing, executing and cancelling.

    /// What a call leaves behind that returns `result` for proposal
    /// `proposal_id`: the proposal in the state returned and everything
    /// else as it was; after a refusal, everything as it was.
    pub open spec fn after_move(
        self,
        proposal_id: u64,
        result: Result<ProposalState, SavingsError>,
    ) -> GovernanceState {
        match result {
            Ok(state) => GovernanceState {
                store: self.store.with_state(proposal_id, state),
                ..self
            },
            Err(_) => self,
        }
    }

    /// What `finalize` returns: the state the proposal is in once it has
    /// been looked at at time `now`, or `NotFound`.
    pub open spec fn finalize_result(
        self,
        config: VotingConfig,
        proposal_id: u64,
        now: u64,
    ) -> Result<ProposalState, SavingsError> {
        if self.store.has_proposal(proposal_id) {
            Ok(self.store.proposal(proposal_id).spec_settled_state(config.quorum_bps, now))
        } else {
            Err(SavingsError::NotFound)
        }
    }

    /// What `finalize` leaves behind.
    pub open spec fn after_finalize(
        self,
        config: VotingConfig,
        proposal_id: u64,
        now: u64,
    ) -> GovernanceState {
        self.after_move(proposal_id, self.finalize_result(config, proposal_id, now))
    }

    /// What `queue_proposal` returns: `Queued` for a succeeded proposal,
    /// for any other the state it is in, or `NotFound`.
    pub open spec fn queue_result(self, proposal_id: u64) -> Result<ProposalState, SavingsError> {
        if !self.store.has_proposal(proposal_id) {
            Err(SavingsError::NotFound)
        } else if self.store.proposal(proposal_id).state == ProposalState::Succeeded {
            Ok(ProposalState::Queued)
        } else {
            Ok(self.store.proposal(proposal_id).state)
        }
    }

    /// What `queue_proposal` leaves behind.
    pub open spec fn after_queue(self, proposal_id: u64) -> GovernanceState {
        self.after_move(proposal_id, self.queue_result(proposal_id))
    }

    /// What `execute_proposal` returns: `Executed` for a queued proposal
    /// whose execution delay has passed, for any other the state it is in,
    /// or `NotFound`.
    pub open spec fn execute_result(
        self,
        config: VotingConfig,
        proposal_id: u64,
        now: u64,
    ) -> Result<ProposalState, SavingsError> {
        if !self.store.has_proposal(proposal_id) {
            Err(SavingsError::NotFound)
        } else if self.store.proposal(proposal_id).spec_executable(
            config.execution_delay_seconds,
            now,
        ) {
            Ok(ProposalState::Executed)
        } else {
            Ok(self.store.proposal(proposal_id).state)
        }
    }

    /// What `execute_proposal` leaves behind.
    pub open spec fn after_execute(
        self,
        config: VotingConfig,
        proposal_id: u64,
        now: u64,
    ) -> GovernanceState {
        self.after_move(proposal_id, self.execute_result(config, proposal_id, now))
    }

    /// Whether `caller` may withdraw proposal `proposal_id`: the proposal
    /// is active, succeeded or queued, and the caller is its creator or an
    /// administrator.
    pub open spec fn may_cancel(
        self,
        proposal_id: u64,
        caller: Address,
        caller_is_admin: bool,
    ) -> bool {
        &&& self.store.proposal(proposal_id).state.spec_cancellable()
        &&& (caller == self.store.proposal(proposal_id).creator || caller_is_admin)
    }

    /// What `cancel_proposal` returns: nothing, or why it was refused.
    pub open spec fn cancel_result(
        self,
        proposal_id: u64,
        caller: Address,
        caller_is_admin: bool,
    ) -> Result<(), SavingsError> {
        if !self.store.has_proposal(proposal_id) {
            Err(SavingsError::NotFound)
        } else if !self.may_cancel(proposal_id, caller, caller_is_admin) {
            Err(SavingsError::Unauthorized)
        } else {
            Ok(())
        }
    }

    /// What `cancel_proposal` leaves behind: the proposal cancelled, or,
    /// after a refusal, everything as it was.
    pub open spec fn after_cancel(
        self,
        proposal_id: u64,
        caller: Address,
        caller_is_admin: bool,
    ) -> GovernanceState {
        match self.cancel_result(proposal_id, caller, caller_is_admin) {
            Ok(_) => self.after_move(
                proposal_id,
                Ok::<ProposalState, SavingsError>(ProposalState::Cancelled),
            ),
            Err(_) => self,
        }
    }
}

} // verus!
