//! What must hold of stored records, and how it is decided.
//!
//! The store's invariant is made of four parts, each a predicate on plain
//! sequences of proposals and receipts. Each part has a function that
//! decides it on vectors, so that records that come back from storage can
//! be checked before a store is rebuilt from them.

use vstd::prelude::*;
use crate::proposal::{Proposal, VoteReceipt, VoteType};

verus! {

/// What `receipt` adds to the tally of `side` on proposal `proposal_id`.
pub open spec fn counted(receipt: VoteReceipt, proposal_id: u64, side: VoteType) -> int {
    if receipt.proposal_id == proposal_id && receipt.vote_type == side {
        receipt.weight as int
    } else {
        0
    }
}

/// The weight that `receipts` record for `side` on proposal `proposal_id`.
pub open spec fn tally_of(receipts: Seq<VoteReceipt>, proposal_id: u64, side: VoteType) -> int
    decreases receipts.len(),
{
    if receipts.len() == 0 {
        0
    } else {
        tally_of(receipts.drop_last(), proposal_id, side) + counted(
            receipts.last(),
            proposal_id,
            side,
        )
    }
}

/// One more receipt adds what it counts for, and nothing else.
pub proof fn lemma_tally_of_push(
    receipts: Seq<VoteReceipt>,
    receipt: VoteReceipt,
    proposal_id: u64,
    side: VoteType,
)
    ensures
        tally_of(receipts.push(receipt), proposal_id, side) == tally_of(
            receipts,
            proposal_id,
            side,
        ) + counted(receipt, proposal_id, side),
{
    assert(receipts.push(receipt).drop_last() =~= receipts);
}

/// Receipts that are all on other proposals record nothing for this one.
pub proof fn lemma_tally_of_absent(receipts: Seq<VoteReceipt>, proposal_id: u64, side: VoteType)
    requires
        forall|i: int|
            0 <= i < receipts.len() ==> (#[trigger] receipts[i]).proposal_id != proposal_id,
    ensures
        tally_of(receipts, proposal_id, side) == 0,
    decreases receipts.len(),
{
    if receipts.len() > 0 {
        lemma_tally_of_absent(receipts.drop_last(), proposal_id, side);
    }
}

/// The proposal at position `k` has the identifier `k + 1`, and is itself
/// well formed.
pub open spec fn in_order(proposals: Seq<Proposal>) -> bool {
    forall|k: int|
        0 <= k < proposals.len() ==> {
            &&& (#[trigger] proposals[k]).id == k + 1
            &&& proposals[k].wf()
        }
}

/// Every receipt is on one of the first `count` proposals and has a weight
/// of zero or more.
pub open spec fn on_stored(receipts: Seq<VoteReceipt>, count: nat) -> bool {
    forall|i: int|
        0 <= i < receipts.len() ==> {
            &&& 1 <= (#[trigger] receipts[i]).proposal_id <= count
            &&& receipts[i].weight >= 0
        }
}

/// No two receipts are of the same voter on the same proposal.
pub open spec fn distinct(receipts: Seq<VoteReceipt>) -> bool {
    forall|i: int, j: int|
        0 <= i < j < receipts.len() ==> !(#[trigger] receipts[i].is_for(
            receipts[j].proposal_id,
            receipts[j].voter,
        ))
}

/// Every tally is the sum of the weights of the receipts for it.
pub open spec fn match_receipts(proposals: Seq<Proposal>, receipts: Seq<VoteReceipt>) -> bool {
    forall|k: int, side: VoteType|
        0 <= k < proposals.len() ==> #[trigger] proposals[k].tally(side) == tally_of(
            receipts,
            (k + 1) as u64,
            side,
        )
}

/// With weights of zero or more, the first `n` receipts sum to no more
/// than all of them.
pub proof fn lemma_tally_of_prefix(
    receipts: Seq<VoteReceipt>,
    n: int,
    proposal_id: u64,
    side: VoteType,
)
    requires
        forall|i: int| 0 <= i < receipts.len() ==> (#[trigger] receipts[i]).weight >= 0,
        0 <= n <= receipts.len(),
    ensures
        tally_of(receipts.take(n), proposal_id, side) <= tally_of(receipts, proposal_id, side),
    decreases receipts.len(),
{
    if n == receipts.len() {
        assert(receipts.take(n) =~= receipts);
    } else {
        lemma_tally_of_prefix(receipts.drop_last(), n, proposal_id, side);
        assert(receipts.drop_last().take(n) =~= receipts.take(n));
    }
}

/// Decides [`in_order`].
pub fn proposals_in_order(proposals: &Vec<Proposal>) -> (r: bool)
    ensures
        r == in_order(proposals@),
{
    let mut k: usize = 0;
    while k < proposals.len()
        invariant
            k <= proposals.len(),
            in_order(proposals@.take(k as int)),
        decreases proposals.len() - k,
    {
        let proposal = &proposals[k];
        if proposal.id != k as u64 + 1 || !proposal.is_well_formed() {
            return false;
        }
        k = k + 1;
    }
    assert(proposals@.take(k as int) =~= proposals@);
    true
}

/// Decides [`on_stored`].
pub fn receipts_on_stored(receipts: &Vec<VoteReceipt>, count: usize) -> (r: bool)
    ensures
        r == on_stored(receipts@, count as nat),
{
    let mut i: usize = 0;
    while i < receipts.len()
        invariant
            i <= receipts.len(),
            on_stored(receipts@.take(i as int), count as nat),
        decreases receipts.len() - i,
    {
        let receipt = &receipts[i];
        if receipt.proposal_id == 0 || receipt.proposal_id > count as u64 || receipt.weight < 0 {
            return false;
        }
        i = i + 1;
    }
    assert(receipts@.take(i as int) =~= receipts@);
    true
}

/// Decides [`distinct`].
pub fn receipts_distinct(receipts: &Vec<VoteReceipt>) -> (r: bool)
    ensures
        r == distinct(receipts@),
{
    let mut j: usize = 0;
    while j < receipts.len()
        invariant
            j <= receipts.len(),
            distinct(receipts@.take(j as int)),
        decreases receipts.len() - j,
    {
        let later = &receipts[j];
        let mut i: usize = 0;
        while i < j
            invariant
                i <= j < receipts.len(),
                *later == receipts@[j as int],
                forall|a: int|
                    0 <= a < i ==> !(#[trigger] receipts@[a].is_for(
                        later.proposal_id,
                        later.voter,
                    )),
            decreases j - i,
        {
            let earlier = &receipts[i];
            if earlier.proposal_id == later.proposal_id && earlier.voter.same_as(&later.voter) {
                assert(receipts@[i as int].is_for(
                    receipts@[j as int].proposal_id,
                    receipts@[j as int].voter,
                ));
                return false;
            }
            i = i + 1;
        }
        j = j + 1;
    }
    assert(receipts@.take(j as int) =~= receipts@);
    true
}

/// The weight that `receipts`, none of them with a negative weight, record
/// for `side` on proposal `proposal_id`, or `None` when it is more than
/// any 128-bit signed amount.
pub fn sum_of_receipts(
    receipts: &Vec<VoteReceipt>,
    proposal_id: u64,
    side: VoteType,
) -> (sum: Option<i128>)
    requires
        forall|i: int| 0 <= i < receipts.len() ==> (#[trigger] receipts@[i]).weight >= 0,
    ensures
        sum is Some <==> tally_of(receipts@, proposal_id, side) <= i128::MAX,
        sum matches Some(total) ==> total == tally_of(receipts@, proposal_id, side),
{
    let mut total: i128 = 0;
    let mut i: usize = 0;
    while i < receipts.len()
        invariant
            i <= receipts.len(),
            forall|a: int| 0 <= a < receipts.len() ==> (#[trigger] receipts@[a]).weight >= 0,
            total == tally_of(receipts@.take(i as int), proposal_id, side),
            total >= 0,
        decreases receipts.len() - i,
    {
        let receipt = &receipts[i];
        proof {
            assert(receipts@.take(i + 1) =~= receipts@.take(i as int).push(receipts@[i as int]));
            lemma_tally_of_push(receipts@.take(i as int), receipts@[i as int], proposal_id, side);
            lemma_tally_of_prefix(receipts@, i + 1, proposal_id, side);
        }
        if receipt.proposal_id == proposal_id && receipt.vote_type == side {
            match total.checked_add(receipt.weight) {
                None => {
                    return None;
                },
                Some(more) => {
                    total = more;
                },
            }
        }
        i = i + 1;
    }
    assert(receipts@.take(i as int) =~= receipts@);
    Some(total)
}

/// Whether the tally of `side` on the proposal at position `at` is the sum
/// of the receipts for it.
fn tally_matches(
    proposals: &Vec<Proposal>,
    receipts: &Vec<VoteReceipt>,
    at: usize,
    side: VoteType,
) -> (r: bool)
    requires
        at < proposals.len(),
        forall|i: int| 0 <= i < receipts.len() ==> (#[trigger] receipts@[i]).weight >= 0,
    ensures
        r == (proposals@[at as int].tally(side) == tally_of(receipts@, (at + 1) as u64, side)),
{
    let proposal = &proposals[at];
    let tally: i128 = match side {
        VoteType::For => proposal.for_weight,
        VoteType::Against => proposal.against_weight,
        VoteType::Abstain => proposal.abstain_weight,
    };
    match sum_of_receipts(receipts, at as u64 + 1, side) {
        None => false,
        Some(total) => total == tally,
    }
}

/// Decides [`match_receipts`] for receipts none of which has a negative
/// weight.
pub fn tallies_match_receipts(proposals: &Vec<Proposal>, receipts: &Vec<VoteReceipt>) -> (r: bool)
    requires
        forall|i: int| 0 <= i < receipts.len() ==> (#[trigger] receipts@[i]).weight >= 0,
    ensures
        r == match_receipts(proposals@, receipts@),
{
    let mut k: usize = 0;
    while k < proposals.len()
        invariant
            k <= proposals.len(),
            forall|i: int| 0 <= i < receipts.len() ==> (#[trigger] receipts@[i]).weight >= 0,
            forall|a: int, side: VoteType|
                0 <= a < k ==> #[trigger] proposals@[a].tally(side) == tally_of(
                    receipts@,
                    (a + 1) as u64,
                    side,
                ),
        decreases proposals.len() - k,
    {
        if !tally_matches(proposals, receipts, k, VoteType::For) {
            return false;
        }
        if !tally_matches(proposals, receipts, k, VoteType::Against) {
            return false;
        }
        if !tally_matches(proposals, receipts, k, VoteType::Abstain) {
            return false;
        }
        k = k + 1;
    }
    true
}

} // verus!
