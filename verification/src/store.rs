//! Where proposals and vote receipts are kept.
//!
//! A proposal is found by its identifier, a receipt by the proposal's
//! identifier and the voter. Identifiers are handed out in order, starting
//! at one, so the proposal with identifier `k` is the `k`-th ever stored.
//! Nothing stored is ever removed.

use vstd::prelude::*;
use crate::address::Address;
use crate::records::{
    distinct,
    in_order,
    lemma_tally_of_absent,
    lemma_tally_of_push,
    match_receipts,
    on_stored,
    proposals_in_order,
    receipts_distinct,
    receipts_on_stored,
    tallies_match_receipts,
    tally_of,
};
use crate::proposal::{Proposal, ProposalState, VoteReceipt, VoteType};

verus! {

/// What the store holds: every proposal, in order of creation, and every
/// receipt, in order of casting.
pub struct StoreState {
    pub proposals: Seq<Proposal>,
    pub receipts: Seq<VoteReceipt>,
}

impl StoreState {
    /// The store that holds the given proposals and receipts.
    pub open spec fn of(proposals: Seq<Proposal>, receipts: Seq<VoteReceipt>) -> StoreState {
        StoreState { proposals, receipts }
    }

    /// The store that holds nothing.
    pub open spec fn empty() -> StoreState {
        StoreState { proposals: Seq::empty(), receipts: Seq::empty() }
    }

    /// Whether a proposal has the identifier `proposal_id`.
    pub open spec fn has_proposal(self, proposal_id: u64) -> bool {
        1 <= proposal_id <= self.proposals.len()
    }

    /// The proposal with the identifier `proposal_id`.
    pub open spec fn proposal(self, proposal_id: u64) -> Proposal
        recommends
            self.has_proposal(proposal_id),
    {
        self.proposals[proposal_id - 1]
    }

    /// The identifier that the next proposal gets.
    pub open spec fn next_id(self) -> nat {
        self.proposals.len() + 1
    }

    /// Whether `voter` has a receipt on proposal `proposal_id`.
    pub open spec fn has_receipt(self, proposal_id: u64, voter: Address) -> bool {
        exists|i: int|
            0 <= i < self.receipts.len() && (#[trigger] self.receipts[i]).is_for(
                proposal_id,
                voter,
            )
    }

    /// The receipt of `voter` on proposal `proposal_id`.
    pub open spec fn receipt(self, proposal_id: u64, voter: Address) -> VoteReceipt
        recommends
            self.has_receipt(proposal_id, voter),
    {
        let i = choose|i: int|
            0 <= i < self.receipts.len() && (#[trigger] self.receipts[i]).is_for(
                proposal_id,
                voter,
            );
        self.receipts[i]
    }

    /// The invariant of the store: its proposals are [`in_order`], its
    /// receipts are [`on_stored`] proposals and [`distinct`], and its
    /// tallies [`match_receipts`].
    pub open spec fn wf(self) -> bool {
        &&& self.proposals.len() <= u64::MAX
        &&& in_order(self.proposals)
        &&& on_stored(self.receipts, self.proposals.len())
        &&& distinct(self.receipts)
        &&& match_receipts(self.proposals, self.receipts)
    }

    /// The store with one more proposal.
    pub open spec fn with_proposal(self, proposal: Proposal) -> StoreState {
        StoreState { proposals: self.proposals.push(proposal), ..self }
    }

    /// The store with one more receipt, its weight added to the tally that
    /// it is for.
    pub open spec fn with_vote(self, receipt: VoteReceipt) -> StoreState
        recommends
            self.has_proposal(receipt.proposal_id),
    {
        StoreState {
            proposals: self.proposals.update(
                receipt.proposal_id - 1,
                self.proposal(receipt.proposal_id).with_vote(receipt.vote_type, receipt.weight),
            ),
            receipts: self.receipts.push(receipt),
        }
    }

    /// The store with proposal `proposal_id` in another state.
    pub open spec fn with_state(self, proposal_id: u64, state: ProposalState) -> StoreState
        recommends
            self.has_proposal(proposal_id),
    {
        StoreState {
            proposals: self.proposals.update(
                proposal_id - 1,
                self.proposal(proposal_id).with_state(state),
            ),
            ..self
        }
    }

    /// A new proposal with the next identifier and empty tallies keeps the
    /// store well formed.
    pub proof fn lemma_with_proposal_wf(self, proposal: Proposal)
        requires
            self.wf(),
            self.proposals.len() < u64::MAX,
            proposal.id == self.next_id(),
            proposal.wf(),
            proposal.participation() == 0,
        ensures
            self.with_proposal(proposal).wf(),
    {
        // No receipt is on the new proposal yet, so its empty tallies are
        // the sums of the receipts for them.
        let after = self.with_proposal(proposal);
        assert forall|k: int, side: VoteType| 0 <= k < after.proposals.len() implies
            #[trigger] after.proposals[k].tally(side) == tally_of(
            after.receipts,
            (k + 1) as u64,
            side,
        ) by {
            if k == self.proposals.len() {
                lemma_tally_of_absent(self.receipts, (k + 1) as u64, side);
            }
        }
    }

    /// A first receipt of a voter on a stored proposal, with a weight that
    /// the tallies have room for, keeps the store well formed.
    pub proof fn lemma_with_vote_wf(self, receipt: VoteReceipt)
        requires
            self.wf(),
            self.has_proposal(receipt.proposal_id),
            !self.has_receipt(receipt.proposal_id, receipt.voter),
            receipt.weight >= 0,
            self.proposal(receipt.proposal_id).participation() + receipt.weight <= i128::MAX,
        ensures
            self.with_vote(receipt).wf(),
    {
        // The new receipt adds its weight to one sum, and that is the
        // tally which grows by it.
        let after = self.with_vote(receipt);
        assert forall|k: int, side: VoteType| 0 <= k < after.proposals.len() implies
            #[trigger] after.proposals[k].tally(side) == tally_of(
            after.receipts,
            (k + 1) as u64,
            side,
        ) by {
            lemma_tally_of_push(self.receipts, receipt, (k + 1) as u64, side);
            assert(self.proposals[k].tally(side) == tally_of(self.receipts, (k + 1) as u64, side));
        }
    }

    /// A change of state keeps the store well formed.
    pub proof fn lemma_with_state_wf(self, proposal_id: u64, state: ProposalState)
        requires
            self.wf(),
            self.has_proposal(proposal_id),
        ensures
            self.with_state(proposal_id, state).wf(),
    {
        // Tallies and receipts are as they were.
        let after = self.with_state(proposal_id, state);
        assert forall|k: int, side: VoteType| 0 <= k < after.proposals.len() implies
            #[trigger] after.proposals[k].tally(side) == tally_of(
            after.receipts,
            (k + 1) as u64,
            side,
        ) by {
            assert(self.proposals[k].tally(side) == tally_of(self.receipts, (k + 1) as u64, side));
        }
    }

    /// In a well-formed store at most one receipt is of a given voter on a
    /// given proposal: any receipt that is, is the one `receipt` names.
    pub proof fn lemma_receipt_unique(self, i: int, proposal_id: u64, voter: Address)
        requires
            self.wf(),
            0 <= i < self.receipts.len(),
            self.receipts[i].is_for(proposal_id, voter),
        ensures
            self.has_receipt(proposal_id, voter),
            self.receipt(proposal_id, voter) == self.receipts[i],
    {
    }
}

/// The store itself.
pub struct ProposalStore {
    proposals: Vec<Proposal>,
    receipts: Vec<VoteReceipt>,
}

impl View for ProposalStore {
    type V = StoreState;

    closed spec fn view(&self) -> StoreState {
        StoreState { proposals: self.proposals@, receipts: self.receipts@ }
    }
}

impl ProposalStore {
    /// Whether the store's invariant holds; see [`StoreState::wf`].
    pub open spec fn wf(&self) -> bool {
        self@.wf()
    }

    /// A store that holds nothing.
    pub fn new() -> (store: ProposalStore)
        ensures
            store@ == StoreState::empty(),
            store.wf(),
    {
        ProposalStore { proposals: Vec::new(), receipts: Vec::new() }
    }

    /// Rebuilds a store from records that were stored before: `None` if
    /// they do not satisfy the store's invariant.
    pub fn restore(
        proposals: Vec<Proposal>,
        receipts: Vec<VoteReceipt>,
    ) -> (store: Option<ProposalStore>)
        ensures
            store is Some <==> StoreState::of(proposals@, receipts@).wf(),
            store matches Some(rebuilt) ==> rebuilt@ == StoreState::of(proposals@, receipts@),
    {
        let sound: bool = proposals_in_order(&proposals) && receipts_on_stored(
            &receipts,
            proposals.len(),
        ) && receipts_distinct(&receipts) && tallies_match_receipts(&proposals, &receipts);
        if sound {
            Some(ProposalStore { proposals, receipts })
        } else {
            None
        }
    }

    /// Every proposal, in order of creation.
    pub fn proposals(&self) -> (proposals: &Vec<Proposal>)
        ensures
            proposals@ == self@.proposals,
    {
        &self.proposals
    }

    /// Every receipt, in order of casting.
    pub fn receipts(&self) -> (receipts: &Vec<VoteReceipt>)
        ensures
            receipts@ == self@.receipts,
    {
        &self.receipts
    }

    /// The number of proposals ever stored, which is also the identifier
    /// of the latest.
    pub fn proposal_count(&self) -> (count: u64)
        ensures
            count == self@.proposals.len(),
    {
        self.proposals.len() as u64
    }

    /// The number of receipts ever stored.
    pub fn receipt_count(&self) -> (count: usize)
        ensures
            count == self@.receipts.len(),
    {
        self.receipts.len()
    }

    /// The proposal with the identifier `proposal_id`, if there is one.
    pub fn get_proposal(&self, proposal_id: u64) -> (found: Option<&Proposal>)
        ensures
            found is Some <==> self@.has_proposal(proposal_id),
            found matches Some(proposal) ==> *proposal == self@.proposal(proposal_id),
    {
        if proposal_id == 0 || proposal_id > self.proposals.len() as u64 {
            None
        } else {
            Some(&self.proposals[(proposal_id - 1) as usize])
        }
    }

    /// The receipt of `voter` on proposal `proposal_id`, if there is one.
    pub fn get_receipt(&self, proposal_id: u64, voter: &Address) -> (found: Option<&VoteReceipt>)
        requires
            self.wf(),
        ensures
            found is Some <==> self@.has_receipt(proposal_id, *voter),
            found matches Some(receipt) ==> *receipt == self@.receipt(proposal_id, *voter),
    {
        let mut i: usize = 0;
        while i < self.receipts.len()
            invariant
                self.wf(),
                i <= self.receipts.len(),
                forall|j: int|
                    0 <= j < i ==> !(#[trigger] self.receipts@[j]).is_for(proposal_id, *voter),
            decreases self.receipts.len() - i,
        {
            let receipt = &self.receipts[i];
            if receipt.proposal_id == proposal_id && receipt.voter.same_as(voter) {
                proof {
                    self@.lemma_receipt_unique(i as int, proposal_id, *voter);
                }
                return Some(receipt);
            }
            i = i + 1;
        }
        None
    }

    /// Stores a new proposal, open for votes, and returns the identifier it
    /// was given.
    pub fn insert_proposal(
        &mut self,
        creator: Address,
        description: String,
        created_at: u64,
        voting_ends_at: u64,
        total_supply: i128,
    ) -> (id: u64)
        requires
            old(self).wf(),
            created_at <= voting_ends_at,
            total_supply >= 0,
        ensures
            id == old(self)@.next_id(),
            final(self)@ == old(self)@.with_proposal(
                Proposal {
                    id,
                    creator,
                    description,
                    created_at,
                    voting_ends_at,
                    for_weight: 0,
                    against_weight: 0,
                    abstain_weight: 0,
                    state: ProposalState::Active,
                    total_supply_snapshot: total_supply,
                },
            ),
            final(self).wf(),
    {
        let count: usize = self.proposals.len();
        let id: u64 = (count as u64).wrapping_add(1);
        let proposal = Proposal {
            id,
            creator,
            description,
            created_at,
            voting_ends_at,
            for_weight: 0,
            against_weight: 0,
            abstain_weight: 0,
            state: ProposalState::Active,
            total_supply_snapshot: total_supply,
        };
        self.proposals.push(proposal);
        // The vector now holds `count + 1` proposals, so that number fits
        // and the identifier has not wrapped.
        let stored: usize = self.proposals.len();
        proof {
            old(self)@.lemma_with_proposal_wf(proposal);
        }
        id
    }

    /// Stores the receipt of a vote and adds its weight to the tally it is
    /// for, in one step.
    pub fn record_vote(&mut self, receipt: VoteReceipt)
        requires
            old(self).wf(),
            old(self)@.has_proposal(receipt.proposal_id),
            !old(self)@.has_receipt(receipt.proposal_id, receipt.voter),
            receipt.weight >= 0,
            old(self)@.proposal(receipt.proposal_id).participation() + receipt.weight <= i128::MAX,
        ensures
            final(self)@ == old(self)@.with_vote(receipt),
            final(self).wf(),
    {
        assert(receipt.proposal_id <= self.proposals.len());
        let at: usize = (receipt.proposal_id - 1) as usize;
        self.proposals[at].add_vote(receipt.vote_type, receipt.weight);
        self.receipts.push(receipt);
        proof {
            old(self)@.lemma_with_vote_wf(receipt);
        }
    }

    /// Puts proposal `proposal_id` in another state.
    pub fn set_state(&mut self, proposal_id: u64, state: ProposalState)
        requires
            old(self).wf(),
            old(self)@.has_proposal(proposal_id),
        ensures
            final(self)@ == old(self)@.with_state(proposal_id, state),
            final(self).wf(),
    {
        assert(proposal_id <= self.proposals.len());
        let at: usize = (proposal_id - 1) as usize;
        self.proposals[at].state = state;
        proof {
            old(self)@.lemma_with_state_wf(proposal_id, state);
        }
    }
}

} // verus!
