//! The governance engine: creation of proposals, voting, settlement and
//! cancellation.
//!
//! The engine owns the store and the emitter of events. What it
//! cannot know by itself is handed to each call as a plain value: the
//! voting parameters, the clock, the answers of the authorization checks,
//! and the voting power of the address that acts.
//!
//! What each call returns and leaves behind is said in
//! [`GovernanceState`]; here it is done, and proved to agree.

use vstd::prelude::*;
use crate::address::Address;
use crate::config::VotingConfig;
use crate::events::{EventEmitter, GovernanceEvent, ProposalCreated, VoteCast};
use crate::proposal::{clamp_weight, Proposal, ProposalState, VoteReceipt, VoteType};
use crate::state::GovernanceState;
use crate::storage_types::SavingsError;
use crate::store::ProposalStore;

verus! {

/// The engine.
pub struct GovernanceEngine {
    store: ProposalStore,
    emitter: EventEmitter,
    max_description_len: usize,
}

impl View for GovernanceEngine {
    type V = GovernanceState;

    closed spec fn view(&self) -> GovernanceState {
        GovernanceState {
            store: self.store@,
            events: self.emitter@,
            max_description_len: self.max_description_len,
        }
    }
}

impl GovernanceEngine {
    /// Whether the engine's invariant holds; see [`GovernanceState::wf`].
    pub open spec fn wf(&self) -> bool {
        self@.wf()
    }

    /// An engine that holds no proposal and has published nothing.
    /// Descriptions of more than `max_description_len` bytes are refused.
    pub fn new(max_description_len: usize) -> (engine: GovernanceEngine)
        ensures
            engine@ == GovernanceState::empty(max_description_len),
            engine.wf(),
    {
        GovernanceEngine {
            store: ProposalStore::new(),
            emitter: EventEmitter::new(),
            max_description_len,
        }
    }

    /// An engine over a store that was kept elsewhere. It has published
    /// nothing yet.
    pub fn from_store(
        store: ProposalStore,
        max_description_len: usize,
    ) -> (engine: GovernanceEngine)
        requires
            store.wf(),
        ensures
            engine@ == (GovernanceState {
                store: store@,
                events: Seq::empty(),
                max_description_len,
            }),
            engine.wf(),
    {
        GovernanceEngine { store, emitter: EventEmitter::new(), max_description_len }
    }

    /// The store, for reading.
    pub fn store(&self) -> (store: &ProposalStore)
        ensures
            store@ == self@.store,
    {
        &self.store
    }

    /// The longest description the engine accepts, in bytes.
    pub fn max_description_len(&self) -> (len: usize)
        ensures
            len == self@.max_description_len,
    {
        self.max_description_len
    }

    /// The number of proposals created so far.
    pub fn proposal_count(&self) -> (count: u64)
        ensures
            count == self@.store.proposals.len(),
    {
        self.store.proposal_count()
    }

    /// The proposal with the identifier `proposal_id`, if there is one.
    pub fn proposal(&self, proposal_id: u64) -> (found: Option<&Proposal>)
        ensures
            found is Some <==> self@.store.has_proposal(proposal_id),
            found matches Some(proposal) ==> *proposal == self@.store.proposal(proposal_id),
    {
        self.store.get_proposal(proposal_id)
    }

    /// The receipt of `voter` on proposal `proposal_id`, if there is one.
    pub fn receipt(&self, proposal_id: u64, voter: &Address) -> (found: Option<&VoteReceipt>)
        requires
            self.wf(),
        ensures
            found is Some <==> self@.store.has_receipt(proposal_id, *voter),
            found matches Some(receipt) ==> *receipt == self@.store.receipt(proposal_id, *voter),
    {
        self.store.get_receipt(proposal_id, voter)
    }

    /// The events published so far, oldest first.
    pub fn events(&self) -> (events: &Vec<GovernanceEvent>)
        ensures
            events@ == self@.events,
    {
        self.emitter.events()
    }

    /// Creates a proposal and opens it for votes.
    ///
    /// `creator_power` is the creator's voting power and `total_supply`
    /// the total voting power, both at time `now`.
    ///
    /// - A creator with less power than `config.proposal_threshold` is
    ///   refused with `Unauthorized`.
    /// - A description that is empty, or longer than the engine accepts,
    ///   is refused with `InvalidInput`.
    /// - Otherwise the proposal gets the next identifier, which is
    ///   returned, and a `created` event is published.
    ///
    /// A refused call changes nothing and takes no identifier.
    ///
    /// The total voting power must not be negative, and the voting window
    /// must end at a time that the clock can show; see
    /// [`GovernanceState::create_fits`]. A caller that cannot know so asks
    /// [`GovernanceEngine::try_create_proposal`].
    pub fn create_proposal(
        &mut self,
        config: &VotingConfig,
        creator: Address,
        description: String,
        creator_power: i128,
        total_supply: i128,
        now: u64,
    ) -> (result: Result<u64, SavingsError>)
        requires
            old(self).wf(),
            GovernanceState::create_fits(*config, total_supply, now),
        ensures
            result == old(self)@.create_result(*config, description@, creator_power),
            final(self)@ == old(self)@.after_create(
                *config,
                creator,
                description,
                creator_power,
                total_supply,
                now,
            ),
            final(self).wf(),
    {
        if creator_power < config.proposal_threshold {
            return Err(SavingsError::Unauthorized);
        }
        let text: &str = description.as_str();
        if text.is_empty() || text.as_bytes().len() > self.max_description_len {
            return Err(SavingsError::InvalidInput);
        }
        let published: String = description.clone();
        let proposal_id: u64 = self.store.insert_proposal(
            creator,
            description,
            now,
            now + config.voting_period_seconds,
            total_supply,
        );
        self.emitter.emit(
            GovernanceEvent::Created(
                ProposalCreated { proposal_id, creator, description: published },
            ),
        );
        Ok(proposal_id)
    }

    /// Does what [`GovernanceEngine::create_proposal`] does wherever that
    /// can be asked, and returns what it returns. Where it cannot, see
    /// [`GovernanceState::create_fits`], returns `None` and changes
    /// nothing.
    pub fn try_create_proposal(
        &mut self,
        config: &VotingConfig,
        creator: Address,
        description: String,
        creator_power: i128,
        total_supply: i128,
        now: u64,
    ) -> (outcome: Option<Result<u64, SavingsError>>)
        requires
            old(self).wf(),
        ensures
            GovernanceState::create_fits(*config, total_supply, now) ==> outcome == Some(
                old(self)@.create_result(*config, description@, creator_power),
            ) && final(self)@ == old(self)@.after_create(
                *config,
                creator,
                description,
                creator_power,
                total_supply,
                now,
            ),
            !GovernanceState::create_fits(*config, total_supply, now) ==> outcome is None
                && final(self)@ == old(self)@,
            final(self).wf(),
    {
        if total_supply < 0 || now.checked_add(config.voting_period_seconds).is_none() {
            return None;
        }
        Some(self.create_proposal(config, creator, description, creator_power, total_supply, now))
    }

    /// Whether the tallies of proposal `proposal_id` have room for a vote
    /// of `power`; see [`GovernanceState::vote_fits`].
    pub fn vote_fits(&self, config: &VotingConfig, proposal_id: u64, power: i128) -> (fits: bool)
        requires
            self.wf(),
        ensures
            fits == self@.vote_fits(*config, proposal_id, power),
    {
        if power <= 0 {
            return true;
        }
        match self.store.get_proposal(proposal_id) {
            None => true,
            Some(proposal) => {
                let weight: i128 = clamp_weight(
                    power,
                    proposal.total_supply_snapshot,
                    config.max_weight_bps,
                );
                let cast: i128 = proposal.for_weight + proposal.against_weight
                    + proposal.abstain_weight;
                weight <= i128::MAX - cast
            },
        }
    }

    /// Casts the vote of `voter` on proposal `proposal_id`.
    ///
    /// `voter_authorized` is the answer of the authorization check for
    /// `voter`, and `power` the voter's voting power at time `now`.
    ///
    /// The call is refused, in this order:
    /// - with `Unauthorized`, if the voter has not authorized it;
    /// - with `NotFound`, if there is no such proposal;
    /// - with `VotingClosed`, if the proposal is not active or its voting
    ///   window has ended;
    /// - with `AlreadyVoted`, if the voter has a receipt on the proposal;
    /// - with `NoVotingPower`, if `power` is zero (or less, which no
    ///   voting power is).
    ///
    /// Otherwise the vote counts for [`effective_weight`]: a receipt with
    /// that weight is stored, the tally of `vote_type` grows by it, a
    /// `voted` event is published, and the weight is returned.
    ///
    /// A refused call changes nothing.
    ///
    /// The tallies must have room for the vote; see
    /// [`GovernanceState::vote_fits`]. A caller that cannot know so asks
    /// [`GovernanceEngine::try_vote`].
    pub fn vote(
        &mut self,
        config: &VotingConfig,
        proposal_id: u64,
        vote_type: VoteType,
        voter: Address,
        voter_authorized: bool,
        power: i128,
        now: u64,
    ) -> (result: Result<i128, SavingsError>)
        requires
            old(self).wf(),
            old(self)@.vote_fits(*config, proposal_id, power),
        ensures
            result == old(self)@.vote_result(
                *config,
                proposal_id,
                voter,
                voter_authorized,
                power,
                now,
            ),
            final(self)@ == old(self)@.after_vote(
                *config,
                proposal_id,
                vote_type,
                voter,
                voter_authorized,
                power,
                now,
            ),
            final(self).wf(),
    {
        if !voter_authorized {
            return Err(SavingsError::Unauthorized);
        }
        let total_supply: i128 = match self.store.get_proposal(proposal_id) {
            None => {
                return Err(SavingsError::NotFound);
            },
            Some(proposal) => {
                if !proposal.accepts_votes(now) {
                    return Err(SavingsError::VotingClosed);
                }
                proposal.total_supply_snapshot
            },
        };
        if self.store.get_receipt(proposal_id, &voter).is_some() {
            return Err(SavingsError::AlreadyVoted);
        }
        if power <= 0 {
            return Err(SavingsError::NoVotingPower);
        }
        let weight: i128 = clamp_weight(power, total_supply, config.max_weight_bps);
        self.store.record_vote(
            VoteReceipt { proposal_id, voter, vote_type, weight, cast_at: now },
        );
        self.emitter.emit(
            GovernanceEvent::Voted(VoteCast { proposal_id, voter, vote_type, weight }),
        );
        Ok(weight)
    }

    /// Does what [`GovernanceEngine::vote`] does wherever that can be
    /// asked, and returns what it returns. Where it cannot, see
    /// [`GovernanceState::vote_fits`], returns `None` and changes nothing.
    pub fn try_vote(
        &mut self,
        config: &VotingConfig,
        proposal_id: u64,
        vote_type: VoteType,
        voter: Address,
        voter_authorized: bool,
        power: i128,
        now: u64,
    ) -> (outcome: Option<Result<i128, SavingsError>>)
        requires
            old(self).wf(),
        ensures
            old(self)@.vote_fits(*config, proposal_id, power) ==> outcome == Some(
                old(self)@.vote_result(*config, proposal_id, voter, voter_authorized, power, now),
            ) && final(self)@ == old(self)@.after_vote(
                *config,
                proposal_id,
                vote_type,
                voter,
                voter_authorized,
                power,
                now,
            ),
            !old(self)@.vote_fits(*config, proposal_id, power) ==> outcome is None
                && final(self)@ == old(self)@,
            final(self).wf(),
    {
        if !self.vote_fits(config, proposal_id, power) {
            return None;
        }
        Some(self.vote(config, proposal_id, vote_type, voter, voter_authorized, power, now))
    }

    /// Puts proposal `proposal_id` in state `target`, unless it is there
    /// already.
    fn move_to(&mut self, proposal_id: u64, current: ProposalState, target: ProposalState)
        requires
            old(self).wf(),
            old(self)@.store.has_proposal(proposal_id),
            old(self)@.store.proposal(proposal_id).state == current,
        ensures
            final(self)@ == old(self)@.after_move(
                proposal_id,
                Ok::<ProposalState, SavingsError>(target),
            ),
            final(self).wf(),
    {
        if current != target {
            self.store.set_state(proposal_id, target);
        } else {
            proof {
                let store = self@.store;
                assert(store.with_state(proposal_id, target).proposals =~= store.proposals);
            }
        }
    }

    /// Settles proposal `proposal_id` once its voting window has ended.
    ///
    /// An active proposal whose window has ended at time `now` becomes
    /// `Succeeded` if its tally carries it (see
    /// [`Proposal::spec_carries`]) and `Defeated` if not. Any other
    /// proposal is left as it is. The state the proposal is in after the
    /// call is returned; `NotFound` if there is no such proposal.
    ///
    /// No tally changes and nothing is published.
    pub fn finalize(
        &mut self,
        config: &VotingConfig,
        proposal_id: u64,
        now: u64,
    ) -> (result: Result<ProposalState, SavingsError>)
        requires
            old(self).wf(),
        ensures
            result == old(self)@.finalize_result(*config, proposal_id, now),
            final(self)@ == old(self)@.after_finalize(*config, proposal_id, now),
            final(self).wf(),
    {
        let (current, target) = match self.store.get_proposal(proposal_id) {
            None => {
                return Err(SavingsError::NotFound);
            },
            Some(proposal) => (proposal.state, proposal.settled_state(config.quorum_bps, now)),
        };
        self.move_to(proposal_id, current, target);
        Ok(target)
    }

    /// Queues a succeeded proposal for execution.
    ///
    /// A proposal in state `Succeeded` becomes `Queued`; any other is left
    /// as it is. The state the proposal is in after the call is returned;
    /// `NotFound` if there is no such proposal.
    pub fn queue_proposal(
        &mut self,
        proposal_id: u64,
    ) -> (result: Result<ProposalState, SavingsError>)
        requires
            old(self).wf(),
        ensures
            result == old(self)@.queue_result(proposal_id),
            final(self)@ == old(self)@.after_queue(proposal_id),
            final(self).wf(),
    {
        let current: ProposalState = match self.store.get_proposal(proposal_id) {
            None => {
                return Err(SavingsError::NotFound);
            },
            Some(proposal) => proposal.state,
        };
        let target: ProposalState = if current == ProposalState::Succeeded {
            ProposalState::Queued
        } else {
            current
        };
        self.move_to(proposal_id, current, target);
        Ok(target)
    }

    /// Marks a queued proposal as executed once the execution delay has
    /// passed.
    ///
    /// A proposal in state `Queued` becomes `Executed` if, at time `now`,
    /// `config.execution_delay_seconds` have passed since the end of its
    /// voting window; any other is left as it is. The state the proposal
    /// is in after the call is returned; `NotFound` if there is no such
    /// proposal.
    pub fn execute_proposal(
        &mut self,
        config: &VotingConfig,
        proposal_id: u64,
        now: u64,
    ) -> (result: Result<ProposalState, SavingsError>)
        requires
            old(self).wf(),
        ensures
            result == old(self)@.execute_result(*config, proposal_id, now),
            final(self)@ == old(self)@.after_execute(*config, proposal_id, now),
            final(self).wf(),
    {
        let (current, ready) = match self.store.get_proposal(proposal_id) {
            None => {
                return Err(SavingsError::NotFound);
            },
            Some(proposal) => (
                proposal.state,
                proposal.executable(config.execution_delay_seconds, now),
            ),
        };
        let target: ProposalState = if ready {
            ProposalState::Executed
        } else {
            current
        };
        self.move_to(proposal_id, current, target);
        Ok(target)
    }

    /// Withdraws proposal `proposal_id`.
    ///
    /// `caller_is_admin` is the answer of the platform's administrator
    /// check for `caller`. The proposal becomes `Cancelled` if it is
    /// `Active`, `Succeeded` or `Queued` and the caller is its creator or
    /// an administrator. Otherwise the call is refused with
    /// `Unauthorized`, or with `NotFound` if there is no such proposal, and
    /// changes nothing.
    ///
    /// No tally changes and nothing is published.
    pub fn cancel_proposal(
        &mut self,
        proposal_id: u64,
        caller: Address,
        caller_is_admin: bool,
    ) -> (result: Result<(), SavingsError>)
        requires
            old(self).wf(),
        ensures
            result == old(self)@.cancel_result(proposal_id, caller, caller_is_admin),
            final(self)@ == old(self)@.after_cancel(proposal_id, caller, caller_is_admin),
            final(self).wf(),
    {
        let current: ProposalState = match self.store.get_proposal(proposal_id) {
            None => {
                return Err(SavingsError::NotFound);
            },
            Some(proposal) => {
                let by_right: bool = caller_is_admin || caller.same_as(&proposal.creator);
                if !(proposal.state.cancellable() && by_right) {
                    return Err(SavingsError::Unauthorized);
                }
                proposal.state
            },
        };
        self.move_to(proposal_id, current, ProposalState::Cancelled);
        Ok(())
    }
}

} // verus!
