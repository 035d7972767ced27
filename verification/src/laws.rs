//! What holds of the engine whatever is asked of it.
//!
//! The laws are stated over [`GovernanceState`], in whose terms every call
//! of the engine is specified, so each of them holds of the engine itself.
//! Settling, queueing, executing and cancelling are all specified by
//! [`GovernanceState::after_move`]; a law about `after_move` is a law
//! about the four of them.

use vstd::prelude::*;
use crate::address::Address;
use crate::bps::share;
use crate::config::VotingConfig;
use crate::state::GovernanceState;
use crate::proposal::{Proposal, ProposalState, VoteReceipt, VoteType};
use crate::storage_types::SavingsError;
use crate::records::tally_of;
use crate::store::StoreState;

verus! {

// ---------------------------------------------------------------------
// The store reads back what was written.
// ---------------------------------------------------------------------

/// A proposal that has just been stored is found under its identifier,
/// and every proposal that was there is found as it was.
pub proof fn lemma_proposal_read_back(store: StoreState, proposal: Proposal, other_id: u64)
    requires
        store.proposals.len() < u64::MAX,
        proposal.id == store.next_id(),
        store.has_proposal(other_id),
    ensures
        store.with_proposal(proposal).has_proposal(proposal.id),
        store.with_proposal(proposal).proposal(proposal.id) == proposal,
        store.with_proposal(proposal).has_proposal(other_id),
        store.with_proposal(proposal).proposal(other_id) == store.proposal(other_id),
        store.with_proposal(proposal).receipts == store.receipts,
{
}

/// A receipt that has just been stored is found under its proposal and
/// voter, and every receipt that was there is found as it was.
pub proof fn lemma_receipt_read_back(
    store: StoreState,
    receipt: VoteReceipt,
    other_id: u64,
    other_voter: Address,
)
    requires
        store.wf(),
        store.has_proposal(receipt.proposal_id),
        !store.has_receipt(receipt.proposal_id, receipt.voter),
        receipt.weight >= 0,
        store.proposal(receipt.proposal_id).participation() + receipt.weight <= i128::MAX,
        store.has_receipt(other_id, other_voter),
    ensures
        store.with_vote(receipt).has_receipt(receipt.proposal_id, receipt.voter),
        store.with_vote(receipt).receipt(receipt.proposal_id, receipt.voter) == receipt,
        store.with_vote(receipt).has_receipt(other_id, other_voter),
        store.with_vote(receipt).receipt(other_id, other_voter) == store.receipt(
            other_id,
            other_voter,
        ),
{
    let after = store.with_vote(receipt);
    store.lemma_with_vote_wf(receipt);
    let last = after.receipts.len() - 1;
    after.lemma_receipt_unique(last, receipt.proposal_id, receipt.voter);
    let i = choose|i: int|
        0 <= i < store.receipts.len() && (#[trigger] store.receipts[i]).is_for(
            other_id,
            other_voter,
        );
    after.lemma_receipt_unique(i, other_id, other_voter);
}

// ---------------------------------------------------------------------
// The invariant is kept.
// ---------------------------------------------------------------------

/// Creating a proposal keeps the engine well formed.
pub proof fn lemma_create_keeps_wf(
    state: GovernanceState,
    config: VotingConfig,
    creator: Address,
    description: String,
    creator_power: i128,
    total_supply: i128,
    now: u64,
)
    requires
        state.wf(),
        state.store.proposals.len() < u64::MAX,
        GovernanceState::create_fits(config, total_supply, now),
    ensures
        state.after_create(config, creator, description, creator_power, total_supply, now).wf(),
{
    if state.create_result(config, description@, creator_power) is Ok {
        state.store.lemma_with_proposal_wf(
            state.created_proposal(config, creator, description, total_supply, now),
        );
    }
}

/// The weight a vote counts for is never negative and never more than the
/// voter's power.
pub proof fn lemma_weight_bounds(
    state: GovernanceState,
    config: VotingConfig,
    proposal_id: u64,
    power: i128,
)
    requires
        state.wf(),
        state.store.has_proposal(proposal_id),
        power >= 0,
    ensures
        0 <= state.weight_on(config, proposal_id, power) <= power,
{
    let supply = state.store.proposal(proposal_id).total_supply_snapshot;
    let bps = config.max_weight_bps;
    assert(share(supply as int, bps as int) >= 0) by (nonlinear_arith)
        requires
            supply >= 0,
            bps >= 0,
    ;
}

/// Voting keeps the engine well formed.
pub proof fn lemma_vote_keeps_wf(
    state: GovernanceState,
    config: VotingConfig,
    proposal_id: u64,
    vote_type: VoteType,
    voter: Address,
    voter_authorized: bool,
    power: i128,
    now: u64,
)
    requires
        state.wf(),
        state.vote_fits(config, proposal_id, power),
    ensures
        state.after_vote(config, proposal_id, vote_type, voter, voter_authorized, power, now).wf(),
{
    match state.vote_result(config, proposal_id, voter, voter_authorized, power, now) {
        Ok(weight) => {
            lemma_weight_bounds(state, config, proposal_id, power);
            state.store.lemma_with_vote_wf(
                VoteReceipt { proposal_id, voter, vote_type, weight, cast_at: now },
            );
        },
        Err(_) => {},
    }
}

/// Settling, queueing, executing and cancelling keep the engine well
/// formed.
pub proof fn lemma_move_keeps_wf(
    state: GovernanceState,
    proposal_id: u64,
    result: Result<ProposalState, SavingsError>,
)
    requires
        state.wf(),
        result is Ok ==> state.store.has_proposal(proposal_id),
    ensures
        state.after_move(proposal_id, result).wf(),
{
    match result {
        Ok(target) => {
            state.store.lemma_with_state_wf(proposal_id, target);
        },
        Err(_) => {},
    }
}

// ---------------------------------------------------------------------
// Tallies grow, and only by votes.
// ---------------------------------------------------------------------

/// Every tally is the sum of the weights of the receipts cast for it: a
/// tally holds what votes have put there and nothing else.
pub proof fn lemma_tallies_are_receipt_sums(
    state: GovernanceState,
    proposal_id: u64,
    side: VoteType,
)
    requires
        state.wf(),
        state.store.has_proposal(proposal_id),
    ensures
        state.store.proposal(proposal_id).tally(side) == tally_of(
            state.store.receipts,
            proposal_id,
            side,
        ),
{
}

/// A vote lowers no tally. It raises one tally, that of its side on its
/// proposal, by the weight it counted for, and leaves every other tally as
/// it was; a refused vote leaves them all as they were.
pub proof fn lemma_vote_only_raises_tallies(
    state: GovernanceState,
    config: VotingConfig,
    proposal_id: u64,
    vote_type: VoteType,
    voter: Address,
    voter_authorized: bool,
    power: i128,
    now: u64,
    other_id: u64,
    side: VoteType,
)
    requires
        state.wf(),
        state.vote_fits(config, proposal_id, power),
        state.store.has_proposal(other_id),
    ensures
        ({
            let result = state.vote_result(
                config,
                proposal_id,
                voter,
                voter_authorized,
                power,
                now,
            );
            let after = state.after_vote(
                config,
                proposal_id,
                vote_type,
                voter,
                voter_authorized,
                power,
                now,
            );
            let before_tally = state.store.proposal(other_id).tally(side);
            let after_tally = after.store.proposal(other_id).tally(side);
            &&& after.store.has_proposal(other_id)
            &&& after_tally >= before_tally
            &&& after_tally == before_tally + (match result {
                Ok(weight) if other_id == proposal_id && side == vote_type => weight as int,
                _ => 0,
            })
        }),
{
    if state.store.has_proposal(proposal_id) && power > 0 {
        lemma_weight_bounds(state, config, proposal_id, power);
    }
}

/// Creating a proposal changes no tally of a proposal that was there.
pub proof fn lemma_create_keeps_tallies(
    state: GovernanceState,
    config: VotingConfig,
    creator: Address,
    description: String,
    creator_power: i128,
    total_supply: i128,
    now: u64,
    other_id: u64,
    side: VoteType,
)
    requires
        state.store.has_proposal(other_id),
    ensures
        ({
            let after = state.after_create(
                config,
                creator,
                description,
                creator_power,
                total_supply,
                now,
            );
            &&& after.store.has_proposal(other_id)
            &&& after.store.proposal(other_id).tally(side) == state.store.proposal(other_id).tally(
                side,
            )
        }),
{
}

/// Settling, queueing, executing and cancelling change no tally.
pub proof fn lemma_move_keeps_tallies(
    state: GovernanceState,
    proposal_id: u64,
    result: Result<ProposalState, SavingsError>,
    other_id: u64,
    side: VoteType,
)
    requires
        result is Ok ==> state.store.has_proposal(proposal_id),
        state.store.has_proposal(other_id),
    ensures
        ({
            let after = state.after_move(proposal_id, result);
            &&& after.store.has_proposal(other_id)
            &&& after.store.proposal(other_id).tally(side) == state.store.proposal(other_id).tally(
                side,
            )
        }),
{
}

// ---------------------------------------------------------------------
// One receipt per voter and proposal.
// ---------------------------------------------------------------------

/// No voter has two receipts on one proposal.
pub proof fn lemma_one_receipt_per_voter(state: GovernanceState, i: int, j: int)
    requires
        state.wf(),
        0 <= i < state.store.receipts.len(),
        0 <= j < state.store.receipts.len(),
        i != j,
    ensures
        !(state.store.receipts[i].proposal_id == state.store.receipts[j].proposal_id
            && state.store.receipts[i].voter == state.store.receipts[j].voter),
{
    if i < j {
        assert(!state.store.receipts[i].is_for(
            state.store.receipts[j].proposal_id,
            state.store.receipts[j].voter,
        ));
    } else {
        assert(!state.store.receipts[j].is_for(
            state.store.receipts[i].proposal_id,
            state.store.receipts[i].voter,
        ));
    }
}

/// Once a vote has been accepted, the receipt it left is that of the voter
/// on the proposal, and no later vote of the same voter on the same
/// proposal is accepted, whatever its side, power or time: it is refused
/// and changes nothing. While the proposal still accepts votes, an
/// authorized one is refused with `AlreadyVoted`.
pub proof fn lemma_second_vote_refused(
    state: GovernanceState,
    config: VotingConfig,
    proposal_id: u64,
    vote_type: VoteType,
    voter: Address,
    power: i128,
    now: u64,
    later_config: VotingConfig,
    later_vote_type: VoteType,
    later_authorized: bool,
    later_power: i128,
    later: u64,
)
    requires
        state.wf(),
        state.vote_result(config, proposal_id, voter, true, power, now) is Ok,
    ensures
        ({
            let after = state.after_vote(config, proposal_id, vote_type, voter, true, power, now);
            let again = after.vote_result(
                later_config,
                proposal_id,
                voter,
                later_authorized,
                later_power,
                later,
            );
            &&& after.store.has_receipt(proposal_id, voter)
            &&& again is Err
            &&& later_authorized && after.store.proposal(proposal_id).spec_accepts_votes(later)
                ==> again == Err::<i128, SavingsError>(SavingsError::AlreadyVoted)
            &&& after.after_vote(
                later_config,
                proposal_id,
                later_vote_type,
                voter,
                later_authorized,
                later_power,
                later,
            ) == after
        }),
{
    let after = state.after_vote(config, proposal_id, vote_type, voter, true, power, now);
    let last = after.store.receipts.len() - 1;
    assert(after.store.receipts[last].is_for(proposal_id, voter));
}

/// A receipt never changes and is never removed: a vote leaves every
/// receipt that was there at its place and as it was, and no other call
/// touches the receipts at all.
pub proof fn lemma_receipts_are_kept(
    state: GovernanceState,
    config: VotingConfig,
    creator: Address,
    description: String,
    creator_power: i128,
    total_supply: i128,
    proposal_id: u64,
    vote_type: VoteType,
    voter: Address,
    voter_authorized: bool,
    power: i128,
    now: u64,
    result: Result<ProposalState, SavingsError>,
    i: int,
)
    requires
        0 <= i < state.store.receipts.len(),
    ensures
        ({
            let after = state.after_vote(
                config,
                proposal_id,
                vote_type,
                voter,
                voter_authorized,
                power,
                now,
            );
            &&& i < after.store.receipts.len()
            &&& after.store.receipts[i] == state.store.receipts[i]
        }),
        state.after_create(
            config,
            creator,
            description,
            creator_power,
            total_supply,
            now,
        ).store.receipts == state.store.receipts,
        state.after_move(proposal_id, result).store.receipts == state.store.receipts,
{
}

// ---------------------------------------------------------------------
// Settling.
// ---------------------------------------------------------------------

/// Settling is idempotent: a second `finalize` at the same time and under
/// the same parameters returns what the first returned and changes
/// nothing. Neither publishes an event.
pub proof fn lemma_finalize_idempotent(
    state: GovernanceState,
    config: VotingConfig,
    proposal_id: u64,
    now: u64,
)
    requires
        state.wf(),
    ensures
        ({
            let first = state.finalize_result(config, proposal_id, now);
            let after = state.after_move(proposal_id, first);
            &&& after.finalize_result(config, proposal_id, now) == first
            &&& after.after_move(proposal_id, first) == after
            &&& after.events == state.events
        }),
{
    let first = state.finalize_result(config, proposal_id, now);
    let after = state.after_move(proposal_id, first);
    if state.store.has_proposal(proposal_id) {
        let settled = first->Ok_0;
        assert(after.store.with_state(proposal_id, settled).proposals =~= after.store.proposals);
    }
}

/// A settled proposal stays settled: once `finalize` has returned a state
/// other than `Active`, every later `finalize`, at whatever time and under
/// whatever parameters, returns that state and changes nothing.
pub proof fn lemma_finalize_settles_once(
    state: GovernanceState,
    config: VotingConfig,
    proposal_id: u64,
    now: u64,
    later_config: VotingConfig,
    later: u64,
)
    requires
        state.wf(),
        state.finalize_result(config, proposal_id, now) is Ok,
        state.finalize_result(config, proposal_id, now) != Ok::<ProposalState, SavingsError>(
            ProposalState::Active,
        ),
    ensures
        ({
            let first = state.finalize_result(config, proposal_id, now);
            let after = state.after_move(proposal_id, first);
            let second = after.finalize_result(later_config, proposal_id, later);
            &&& second == first
            &&& after.after_move(proposal_id, second) == after
            &&& after.events == state.events
        }),
{
    let first = state.finalize_result(config, proposal_id, now);
    let after = state.after_move(proposal_id, first);
    let settled = first->Ok_0;
    assert(after.store.with_state(proposal_id, settled).proposals =~= after.store.proposals);
}

/// Once the voting window of an active proposal has ended, `finalize`
/// settles it by the tally and the total voting power at creation alone:
/// as `Succeeded` if there is more weight in favour than against and the
/// weight of all votes is at least `quorum_bps` basis points of that
/// total, and as `Defeated` otherwise.
pub proof fn lemma_finalize_decides_by_tally(
    state: GovernanceState,
    config: VotingConfig,
    proposal_id: u64,
    now: u64,
)
    requires
        state.store.has_proposal(proposal_id),
        state.store.proposal(proposal_id).state == ProposalState::Active,
        now >= state.store.proposal(proposal_id).voting_ends_at,
    ensures
        ({
            let proposal = state.store.proposal(proposal_id);
            let carried = proposal.for_weight > proposal.against_weight && (proposal.for_weight
                + proposal.against_weight + proposal.abstain_weight) * 10_000
                >= proposal.total_supply_snapshot * config.quorum_bps;
            state.finalize_result(config, proposal_id, now) == Ok::<ProposalState, SavingsError>(
                if carried {
                    ProposalState::Succeeded
                } else {
                    ProposalState::Defeated
                },
            )
        }),
{
}

// ---------------------------------------------------------------------
// The life of a proposal.
// ---------------------------------------------------------------------

/// No call moves a proposal against its life cycle: after settling,
/// queueing, executing or cancelling, every proposal is in the state it
/// was in or in one that follows it in one step (see
/// [`ProposalState::steps_to`]), and a proposal other than the one the
/// call was about is in the state it was in. A defeated, executed or
/// cancelled proposal stays so for good.
pub proof fn lemma_states_follow_life_cycle(
    state: GovernanceState,
    config: VotingConfig,
    proposal_id: u64,
    caller: Address,
    caller_is_admin: bool,
    now: u64,
    other_id: u64,
)
    requires
        state.store.has_proposal(other_id),
    ensures
        ({
            let before = state.store.proposal(other_id).state;
            let settled = state.after_finalize(config, proposal_id, now).store.proposal(
                other_id,
            ).state;
            let queued = state.after_queue(proposal_id).store.proposal(other_id).state;
            let executed = state.after_execute(config, proposal_id, now).store.proposal(
                other_id,
            ).state;
            let cancelled = state.after_cancel(
                proposal_id,
                caller,
                caller_is_admin,
            ).store.proposal(other_id).state;
            &&& settled == before || before.steps_to(settled)
            &&& queued == before || before.steps_to(queued)
            &&& executed == before || before.steps_to(executed)
            &&& cancelled == before || before.steps_to(cancelled)
            &&& other_id != proposal_id || before.is_final() ==> {
                &&& settled == before
                &&& queued == before
                &&& executed == before
                &&& cancelled == before
            }
        }),
{
}

/// Creating a proposal and voting change the state of no proposal that
/// was there, and a new proposal is active.
pub proof fn lemma_create_and_vote_keep_states(
    state: GovernanceState,
    config: VotingConfig,
    creator: Address,
    description: String,
    creator_power: i128,
    total_supply: i128,
    proposal_id: u64,
    vote_type: VoteType,
    voter: Address,
    voter_authorized: bool,
    power: i128,
    now: u64,
    other_id: u64,
)
    requires
        state.store.proposals.len() < u64::MAX,
        state.store.has_proposal(other_id),
    ensures
        ({
            let created = state.after_create(
                config,
                creator,
                description,
                creator_power,
                total_supply,
                now,
            );
            &&& created.store.proposal(other_id).state == state.store.proposal(other_id).state
            &&& state.create_result(config, description@, creator_power) matches Ok(created_id)
                ==> created.store.proposal(created_id).state == ProposalState::Active
        }),
        state.after_vote(
            config,
            proposal_id,
            vote_type,
            voter,
            voter_authorized,
            power,
            now,
        ).store.proposal(other_id).state == state.store.proposal(other_id).state,
{
}

/// A stored proposal keeps what it was created with: whatever is asked of
/// the engine, its identifier, creator, description, times and total
/// voting power at creation stay as they were. Only its tallies and its
/// state ever change.
pub proof fn lemma_proposals_are_kept(
    state: GovernanceState,
    config: VotingConfig,
    creator: Address,
    description: String,
    creator_power: i128,
    total_supply: i128,
    proposal_id: u64,
    vote_type: VoteType,
    voter: Address,
    voter_authorized: bool,
    power: i128,
    now: u64,
    result: Result<ProposalState, SavingsError>,
    other_id: u64,
)
    requires
        result is Ok ==> state.store.has_proposal(proposal_id),
        state.store.has_proposal(other_id),
    ensures
        state.store.proposal(other_id).same_origin(
            state.after_create(
                config,
                creator,
                description,
                creator_power,
                total_supply,
                now,
            ).store.proposal(other_id),
        ),
        state.store.proposal(other_id).same_origin(
            state.after_vote(
                config,
                proposal_id,
                vote_type,
                voter,
                voter_authorized,
                power,
                now,
            ).store.proposal(other_id),
        ),
        state.store.proposal(other_id).same_origin(
            state.after_move(proposal_id, result).store.proposal(other_id),
        ),
{
}

// ---------------------------------------------------------------------
// Votes and the voting window.
// ---------------------------------------------------------------------

/// A vote on a proposal whose voting window has ended is refused with
/// `VotingClosed` and changes nothing, whoever casts it and with whatever
/// power.
pub proof fn lemma_late_vote_refused(
    state: GovernanceState,
    config: VotingConfig,
    proposal_id: u64,
    vote_type: VoteType,
    voter: Address,
    power: i128,
    now: u64,
)
    requires
        state.store.has_proposal(proposal_id),
        now >= state.store.proposal(proposal_id).voting_ends_at,
    ensures
        state.vote_result(config, proposal_id, voter, true, power, now) == Err::<
            i128,
            SavingsError,
        >(SavingsError::VotingClosed),
        state.after_vote(config, proposal_id, vote_type, voter, true, power, now) == state,
{
}

// ---------------------------------------------------------------------
// Refusals, identifiers and events.
// ---------------------------------------------------------------------

/// A refused call changes nothing: no proposal, no receipt, no tally, no
/// event.
pub proof fn lemma_refusal_changes_nothing(
    state: GovernanceState,
    config: VotingConfig,
    creator: Address,
    description: String,
    creator_power: i128,
    total_supply: i128,
    proposal_id: u64,
    vote_type: VoteType,
    voter: Address,
    voter_authorized: bool,
    power: i128,
    now: u64,
    refusal: SavingsError,
)
    ensures
        state.create_result(config, description@, creator_power) is Err ==> state.after_create(
            config,
            creator,
            description,
            creator_power,
            total_supply,
            now,
        ) == state,
        state.vote_result(config, proposal_id, voter, voter_authorized, power, now) is Err
            ==> state.after_vote(
            config,
            proposal_id,
            vote_type,
            voter,
            voter_authorized,
            power,
            now,
        ) == state,
        state.after_move(proposal_id, Err::<ProposalState, SavingsError>(refusal)) == state,
{
}

/// Identifiers are given out in order and only to proposals that are
/// created: a successful creation returns one more than the number of
/// proposals there were, and a refused one leaves that number as it was.
pub proof fn lemma_identifiers_in_order(
    state: GovernanceState,
    config: VotingConfig,
    creator: Address,
    description: String,
    creator_power: i128,
    total_supply: i128,
    now: u64,
)
    requires
        state.store.proposals.len() < u64::MAX,
    ensures
        ({
            let result = state.create_result(config, description@, creator_power);
            let after = state.after_create(
                config,
                creator,
                description,
                creator_power,
                total_supply,
                now,
            );
            match result {
                Ok(proposal_id) => {
                    &&& proposal_id == state.store.proposals.len() + 1
                    &&& after.store.proposals.len() == proposal_id
                    &&& after.store.proposal(proposal_id).id == proposal_id
                },
                Err(_) => after.store.proposals.len() == state.store.proposals.len(),
            }
        }),
{
}

/// An accepted creation and an accepted vote each publish exactly one
/// event, after all that were published before; the event carries the
/// three topics of its action. Nothing else publishes an event.
pub proof fn lemma_one_event_per_accepted_call(
    state: GovernanceState,
    config: VotingConfig,
    creator: Address,
    description: String,
    creator_power: i128,
    total_supply: i128,
    proposal_id: u64,
    vote_type: VoteType,
    voter: Address,
    voter_authorized: bool,
    power: i128,
    now: u64,
    result: Result<ProposalState, SavingsError>,
)
    ensures
        ({
            let after = state.after_create(
                config,
                creator,
                description,
                creator_power,
                total_supply,
                now,
            );
            match state.create_result(config, description@, creator_power) {
                Ok(created_id) => {
                    &&& after.events.len() == state.events.len() + 1
                    &&& after.events.drop_last() == state.events
                    &&& after.events.last().spec_proposal_id() == created_id
                    &&& after.events.last().spec_topics() == seq![
                        crate::events::Topic::Tag("gov"),
                        crate::events::Topic::Tag("created"),
                        crate::events::Topic::Address(creator),
                    ]
                },
                Err(_) => after.events == state.events,
            }
        }),
        ({
            let after = state.after_vote(
                config,
                proposal_id,
                vote_type,
                voter,
                voter_authorized,
                power,
                now,
            );
            match state.vote_result(config, proposal_id, voter, voter_authorized, power, now) {
                Ok(_) => {
                    &&& after.events.len() == state.events.len() + 1
                    &&& after.events.drop_last() == state.events
                    &&& after.events.last().spec_proposal_id() == proposal_id
                    &&& after.events.last().spec_topics() == seq![
                        crate::events::Topic::Tag("gov"),
                        crate::events::Topic::Tag("voted"),
                        crate::events::Topic::Address(voter),
                    ]
                },
                Err(_) => after.events == state.events,
            }
        }),
        state.after_move(proposal_id, result).events == state.events,
{
}

} // verus!
