use savings_governance::address::Address;
use savings_governance::config::{ConfigSlot, VotingConfig};
use savings_governance::engine::GovernanceEngine;
use savings_governance::events::{GovernanceEvent, Topic, VoteCast};
use savings_governance::proposal::{ProposalState, VoteReceipt, VoteType};
use savings_governance::storage_types::SavingsError;

const WEEK: u64 = 604800;

fn config_with(max_weight_bps: u32) -> VotingConfig {
    let mut slot = ConfigSlot::new();
    slot.init_voting_config(true, 5000, WEEK, 86400, 100, max_weight_bps)
        .unwrap();
    slot.config().unwrap()
}

fn config() -> VotingConfig {
    config_with(0)
}

fn address(n: u8) -> Address {
    Address::account([n; 32])
}

fn engine_with_proposal() -> (GovernanceEngine, VotingConfig, u64) {
    let config = config();
    let mut engine = GovernanceEngine::new(64);
    let id = engine
        .create_proposal(&config, address(1), String::from("Lower the fee"), 100, 10_000, 0)
        .unwrap();
    (engine, config, id)
}

fn tallies(engine: &GovernanceEngine, id: u64) -> (i128, i128, i128) {
    let p = engine.proposal(id).unwrap();
    (p.for_weight, p.against_weight, p.abstain_weight)
}

#[test]
fn new_engine_is_empty() {
    let engine = GovernanceEngine::new(64);
    assert_eq!(engine.proposal_count(), 0);
    assert_eq!(engine.max_description_len(), 64);
    assert!(engine.events().is_empty());
    assert!(engine.proposal(0).is_none());
    assert!(engine.proposal(1).is_none());
    assert!(engine.receipt(1, &address(1)).is_none());
}

#[test]
fn created_proposal_is_active_with_empty_tallies() {
    let config = config();
    let mut engine = GovernanceEngine::new(64);
    let id = engine
        .create_proposal(&config, address(1), String::from("Lower the fee"), 100, 10_000, 50)
        .unwrap();
    assert_eq!(id, 1);
    assert_eq!(engine.proposal_count(), 1);
    let p = engine.proposal(id).unwrap();
    assert_eq!(p.id, 1);
    assert_eq!(p.creator, address(1));
    assert_eq!(p.description, "Lower the fee");
    assert_eq!(p.created_at, 50);
    assert_eq!(p.voting_ends_at, 50 + WEEK);
    assert_eq!((p.for_weight, p.against_weight, p.abstain_weight), (0, 0, 0));
    assert_eq!(p.state, ProposalState::Active);
    assert_eq!(p.total_supply_snapshot, 10_000);
}

#[test]
fn identifiers_increase_by_one() {
    let config = config();
    let mut engine = GovernanceEngine::new(64);
    for expected in 1..=5u64 {
        let id = engine
            .create_proposal(&config, address(1), String::from("Again"), 100, 10_000, expected)
            .unwrap();
        assert_eq!(id, expected);
        assert_eq!(engine.proposal(id).unwrap().id, expected);
    }
    assert_eq!(engine.proposal_count(), 5);
    assert_eq!(engine.events().len(), 5);
}

#[test]
fn creator_below_threshold_is_unauthorized_and_takes_no_id() {
    let config = config();
    let mut engine = GovernanceEngine::new(64);
    assert_eq!(
        engine.create_proposal(&config, address(1), String::from("Too poor"), 99, 10_000, 0),
        Err(SavingsError::Unauthorized)
    );
    assert_eq!(engine.proposal_count(), 0);
    assert!(engine.events().is_empty());
    assert!(engine.proposal(1).is_none());
    // the next successful creation gets the identifier that was not taken
    assert_eq!(
        engine.create_proposal(&config, address(2), String::from("Rich enough"), 100, 10_000, 0),
        Ok(1)
    );
}

#[test]
fn threshold_comes_before_description() {
    let config = config();
    let mut engine = GovernanceEngine::new(64);
    assert_eq!(
        engine.create_proposal(&config, address(1), String::new(), 0, 10_000, 0),
        Err(SavingsError::Unauthorized)
    );
}

#[test]
fn empty_description_is_invalid() {
    let config = config();
    let mut engine = GovernanceEngine::new(64);
    assert_eq!(
        engine.create_proposal(&config, address(1), String::new(), 100, 10_000, 0),
        Err(SavingsError::InvalidInput)
    );
    assert_eq!(engine.proposal_count(), 0);
    assert!(engine.events().is_empty());
}

#[test]
fn description_length_is_bounded_in_bytes() {
    let config = config();
    let mut engine = GovernanceEngine::new(8);
    assert_eq!(
        engine.create_proposal(&config, address(1), String::from("12345678"), 100, 10_000, 0),
        Ok(1)
    );
    assert_eq!(
        engine.create_proposal(&config, address(1), String::from("123456789"), 100, 10_000, 0),
        Err(SavingsError::InvalidInput)
    );
    // four characters of two bytes each fit, five do not
    assert_eq!(
        engine.create_proposal(&config, address(1), String::from("éééé"), 100, 10_000, 0),
        Ok(2)
    );
    assert_eq!(
        engine.create_proposal(&config, address(1), String::from("ééééé"), 100, 10_000, 0),
        Err(SavingsError::InvalidInput)
    );
    assert_eq!(engine.proposal_count(), 2);
}

#[test]
fn vote_for_then_finalize_succeeds() {
    // quorum 50%, supply 10000, period of one week, created at 0;
    // with no limit on a vote's weight, and with a limit of all the supply
    for max_weight_bps in [0, 10_000] {
        let config = config_with(max_weight_bps);
        let mut engine = GovernanceEngine::new(64);
        let id = engine
            .create_proposal(&config, address(1), String::from("Lower the fee"), 100, 10_000, 0)
            .unwrap();
        assert_eq!(
            engine.vote(&config, id, VoteType::For, address(10), true, 6000, 100),
            Ok(6000)
        );
        assert_eq!(tallies(&engine, id), (6000, 0, 0));
        assert_eq!(engine.finalize(&config, id, 604801), Ok(ProposalState::Succeeded));
        assert_eq!(engine.proposal(id).unwrap().state, ProposalState::Succeeded);
    }
}

#[test]
fn no_votes_then_finalize_is_defeated() {
    let (mut engine, config, id) = engine_with_proposal();
    assert_eq!(engine.finalize(&config, id, 604801), Ok(ProposalState::Defeated));
    assert_eq!(engine.proposal(id).unwrap().state, ProposalState::Defeated);
    assert_eq!(tallies(&engine, id), (0, 0, 0));
}

#[test]
fn voter_without_power_is_refused_and_gets_no_receipt() {
    let (mut engine, config, id) = engine_with_proposal();
    assert_eq!(
        engine.vote(&config, id, VoteType::For, address(10), true, 0, 100),
        Err(SavingsError::NoVotingPower)
    );
    assert!(engine.receipt(id, &address(10)).is_none());
    assert_eq!(tallies(&engine, id), (0, 0, 0));
    assert_eq!(engine.events().len(), 1);
}

#[test]
fn vote_writes_receipt_tally_and_event() {
    let (mut engine, config, id) = engine_with_proposal();
    assert_eq!(
        engine.vote(&config, id, VoteType::Against, address(10), true, 700, 100),
        Ok(700)
    );
    assert_eq!(
        engine.receipt(id, &address(10)),
        Some(&VoteReceipt {
            proposal_id: id,
            voter: address(10),
            vote_type: VoteType::Against,
            weight: 700,
            cast_at: 100,
        })
    );
    assert_eq!(tallies(&engine, id), (0, 700, 0));
    let events = engine.events();
    assert_eq!(events.len(), 2);
    assert_eq!(
        events[1],
        GovernanceEvent::Voted(VoteCast {
            proposal_id: id,
            voter: address(10),
            vote_type: VoteType::Against,
            weight: 700,
        })
    );
    assert_eq!(
        events[1].topics(),
        vec![Topic::Tag("gov"), Topic::Tag("voted"), Topic::Address(address(10))]
    );
}

#[test]
fn each_side_has_its_own_tally() {
    let (mut engine, config, id) = engine_with_proposal();
    engine.vote(&config, id, VoteType::For, address(10), true, 5, 1).unwrap();
    engine.vote(&config, id, VoteType::Against, address(11), true, 7, 2).unwrap();
    engine.vote(&config, id, VoteType::Abstain, address(12), true, 11, 3).unwrap();
    engine.vote(&config, id, VoteType::For, address(13), true, 13, 4).unwrap();
    assert_eq!(tallies(&engine, id), (18, 7, 11));
    assert_eq!(engine.store().receipts().len(), 4);
    assert_eq!(engine.events().len(), 5);
}

#[test]
fn unauthorized_vote_is_refused_first() {
    let (mut engine, config, id) = engine_with_proposal();
    assert_eq!(
        engine.vote(&config, id, VoteType::For, address(10), false, 6000, 100),
        Err(SavingsError::Unauthorized)
    );
    assert_eq!(
        engine.vote(&config, 99, VoteType::For, address(10), false, 6000, 100),
        Err(SavingsError::Unauthorized)
    );
    assert!(engine.receipt(id, &address(10)).is_none());
    assert_eq!(engine.events().len(), 1);
}

#[test]
fn vote_on_unknown_proposal_is_not_found() {
    let (mut engine, config, _) = engine_with_proposal();
    assert_eq!(
        engine.vote(&config, 0, VoteType::For, address(10), true, 6000, 100),
        Err(SavingsError::NotFound)
    );
    assert_eq!(
        engine.vote(&config, 2, VoteType::For, address(10), true, 6000, 100),
        Err(SavingsError::NotFound)
    );
    assert_eq!(
        engine.vote(&config, u64::MAX, VoteType::For, address(10), true, 6000, 100),
        Err(SavingsError::NotFound)
    );
    assert_eq!(engine.events().len(), 1);
}

#[test]
fn vote_at_or_after_the_end_is_closed() {
    let (mut engine, config, id) = engine_with_proposal();
    assert_eq!(
        engine.vote(&config, id, VoteType::For, address(10), true, 6000, WEEK),
        Err(SavingsError::VotingClosed)
    );
    assert_eq!(
        engine.vote(&config, id, VoteType::For, address(10), true, 6000, WEEK + 1),
        Err(SavingsError::VotingClosed)
    );
    // closed comes before power and before receipts
    assert_eq!(
        engine.vote(&config, id, VoteType::For, address(10), true, 0, u64::MAX),
        Err(SavingsError::VotingClosed)
    );
    assert!(engine.receipt(id, &address(10)).is_none());
    assert_eq!(tallies(&engine, id), (0, 0, 0));
    assert_eq!(engine.events().len(), 1);
    // the last second of the window is still open
    assert_eq!(
        engine.vote(&config, id, VoteType::For, address(10), true, 6000, WEEK - 1),
        Ok(6000)
    );
}

#[test]
fn vote_on_a_proposal_that_is_not_active_is_closed() {
    let (mut engine, config, id) = engine_with_proposal();
    engine.cancel_proposal(id, address(1), false).unwrap();
    assert_eq!(
        engine.vote(&config, id, VoteType::For, address(10), true, 6000, 100),
        Err(SavingsError::VotingClosed)
    );
    assert_eq!(tallies(&engine, id), (0, 0, 0));
}

#[test]
fn second_vote_is_refused_and_changes_nothing() {
    let (mut engine, config, id) = engine_with_proposal();
    engine.vote(&config, id, VoteType::For, address(10), true, 6000, 100).unwrap();
    assert_eq!(
        engine.vote(&config, id, VoteType::Against, address(10), true, 9000, 200),
        Err(SavingsError::AlreadyVoted)
    );
    // already voted comes before power
    assert_eq!(
        engine.vote(&config, id, VoteType::For, address(10), true, 0, 200),
        Err(SavingsError::AlreadyVoted)
    );
    assert_eq!(tallies(&engine, id), (6000, 0, 0));
    assert_eq!(engine.store().receipts().len(), 1);
    assert_eq!(engine.receipt(id, &address(10)).unwrap().weight, 6000);
    assert_eq!(engine.receipt(id, &address(10)).unwrap().cast_at, 100);
    assert_eq!(engine.events().len(), 2);
}

#[test]
fn one_voter_may_vote_on_several_proposals() {
    let (mut engine, config, first) = engine_with_proposal();
    let second = engine
        .create_proposal(&config, address(1), String::from("Another"), 100, 20_000, 10)
        .unwrap();
    assert_eq!(engine.vote(&config, first, VoteType::For, address(10), true, 5, 11), Ok(5));
    assert_eq!(engine.vote(&config, second, VoteType::Against, address(10), true, 6, 12), Ok(6));
    assert_eq!(tallies(&engine, first), (5, 0, 0));
    assert_eq!(tallies(&engine, second), (0, 6, 0));
    // an account and a contract with the same key are two voters
    assert_eq!(
        engine.vote(&config, first, VoteType::For, Address::contract([10u8; 32]), true, 1, 13),
        Ok(1)
    );
    assert_eq!(tallies(&engine, first), (6, 0, 0));
}

#[test]
fn weight_is_limited_to_the_share_of_the_snapshot() {
    let config = config_with(2_500);
    let mut engine = GovernanceEngine::new(64);
    let id = engine
        .create_proposal(&config, address(1), String::from("Limited"), 100, 10_000, 0)
        .unwrap();
    assert_eq!(engine.vote(&config, id, VoteType::For, address(10), true, 6000, 1), Ok(2500));
    assert_eq!(engine.vote(&config, id, VoteType::For, address(11), true, 2000, 2), Ok(2000));
    assert_eq!(tallies(&engine, id), (4500, 0, 0));
    // the receipt and the event carry the weight that was counted
    assert_eq!(engine.receipt(id, &address(10)).unwrap().weight, 2500);
    match &engine.events()[1] {
        GovernanceEvent::Voted(payload) => assert_eq!(payload.weight, 2500),
        GovernanceEvent::Created(_) => panic!("not a vote"),
    }
}

#[test]
fn a_limit_of_nothing_counts_the_vote_for_nothing() {
    let config = config_with(1);
    let mut engine = GovernanceEngine::new(64);
    let id = engine
        .create_proposal(&config, address(1), String::from("Tiny supply"), 100, 9_999, 0)
        .unwrap();
    assert_eq!(engine.vote(&config, id, VoteType::For, address(10), true, 6000, 1), Ok(0));
    assert_eq!(tallies(&engine, id), (0, 0, 0));
    assert_eq!(engine.receipt(id, &address(10)).unwrap().weight, 0);
}

#[test]
fn vote_fits_while_the_tallies_have_room() {
    let (mut engine, config, id) = engine_with_proposal();
    assert!(engine.vote_fits(&config, id, i128::MAX));
    assert!(engine.vote_fits(&config, 99, i128::MAX));
    engine.vote(&config, id, VoteType::For, address(10), true, i128::MAX - 5, 1).unwrap();
    assert!(engine.vote_fits(&config, id, 5));
    assert!(!engine.vote_fits(&config, id, 6));
    assert!(engine.vote_fits(&config, id, 0));
    assert!(engine.vote_fits(&config, id, -1));
    assert_eq!(engine.vote(&config, id, VoteType::Abstain, address(11), true, 5, 2), Ok(5));
    assert_eq!(tallies(&engine, id), (i128::MAX - 5, 0, 5));
    assert!(!engine.vote_fits(&config, id, 1));
}

#[test]
fn finalize_before_the_end_leaves_the_proposal_active() {
    let (mut engine, config, id) = engine_with_proposal();
    engine.vote(&config, id, VoteType::For, address(10), true, 6000, 100).unwrap();
    assert_eq!(engine.finalize(&config, id, WEEK - 1), Ok(ProposalState::Active));
    assert_eq!(engine.proposal(id).unwrap().state, ProposalState::Active);
    // and the proposal still takes votes
    assert_eq!(engine.vote(&config, id, VoteType::For, address(11), true, 1, WEEK - 1), Ok(1));
}

#[test]
fn finalize_at_the_end_settles() {
    let (mut engine, config, id) = engine_with_proposal();
    engine.vote(&config, id, VoteType::For, address(10), true, 5000, 100).unwrap();
    assert_eq!(engine.finalize(&config, id, WEEK), Ok(ProposalState::Succeeded));
}

#[test]
fn finalize_without_quorum_or_majority_is_defeated() {
    let (mut engine, config, id) = engine_with_proposal();
    engine.vote(&config, id, VoteType::For, address(10), true, 4999, 100).unwrap();
    assert_eq!(engine.finalize(&config, id, WEEK), Ok(ProposalState::Defeated));

    let second = engine
        .create_proposal(&config, address(1), String::from("Split"), 100, 10_000, 0)
        .unwrap();
    engine.vote(&config, second, VoteType::For, address(10), true, 4000, 1).unwrap();
    engine.vote(&config, second, VoteType::Against, address(11), true, 4000, 2).unwrap();
    assert_eq!(engine.finalize(&config, second, WEEK), Ok(ProposalState::Defeated));
}

#[test]
fn finalize_twice_gives_the_same_state_and_no_event() {
    let (mut engine, config, id) = engine_with_proposal();
    engine.vote(&config, id, VoteType::For, address(10), true, 6000, 100).unwrap();
    let events_before = engine.events().len();
    let first = engine.finalize(&config, id, 604801);
    let after_first = engine.proposal(id).unwrap().clone();
    let second = engine.finalize(&config, id, 604801);
    assert_eq!(first, Ok(ProposalState::Succeeded));
    assert_eq!(second, first);
    assert_eq!(engine.proposal(id).unwrap(), &after_first);
    assert_eq!(engine.events().len(), events_before);
}

#[test]
fn settled_outcome_does_not_follow_later_parameters() {
    let (mut engine, config, id) = engine_with_proposal();
    engine.vote(&config, id, VoteType::For, address(10), true, 6000, 100).unwrap();
    assert_eq!(engine.finalize(&config, id, 604801), Ok(ProposalState::Succeeded));
    let mut stricter = config;
    stricter.quorum_bps = 9000;
    assert_eq!(engine.finalize(&stricter, id, u64::MAX), Ok(ProposalState::Succeeded));
    assert_eq!(tallies(&engine, id), (6000, 0, 0));
}

#[test]
fn finalize_unknown_proposal_is_not_found() {
    let (mut engine, config, _) = engine_with_proposal();
    assert_eq!(engine.finalize(&config, 0, WEEK), Err(SavingsError::NotFound));
    assert_eq!(engine.finalize(&config, 2, WEEK), Err(SavingsError::NotFound));
}

#[test]
fn quorum_is_measured_against_the_snapshot() {
    let config = config();
    let mut engine = GovernanceEngine::new(64);
    let small = engine
        .create_proposal(&config, address(1), String::from("Small supply"), 100, 10_000, 0)
        .unwrap();
    let large = engine
        .create_proposal(&config, address(1), String::from("Large supply"), 100, 20_000, 0)
        .unwrap();
    engine.vote(&config, small, VoteType::For, address(10), true, 6000, 1).unwrap();
    engine.vote(&config, large, VoteType::For, address(10), true, 6000, 1).unwrap();
    assert_eq!(engine.finalize(&config, small, WEEK), Ok(ProposalState::Succeeded));
    assert_eq!(engine.finalize(&config, large, WEEK), Ok(ProposalState::Defeated));
}

#[test]
fn creator_cancels_an_active_proposal() {
    let (mut engine, config, id) = engine_with_proposal();
    engine.vote(&config, id, VoteType::For, address(10), true, 6000, 100).unwrap();
    let events_before = engine.events().len();
    assert_eq!(engine.cancel_proposal(id, address(1), false), Ok(()));
    assert_eq!(engine.proposal(id).unwrap().state, ProposalState::Cancelled);
    assert_eq!(tallies(&engine, id), (6000, 0, 0));
    assert_eq!(engine.events().len(), events_before);
    // cancelled is terminal
    assert_eq!(engine.finalize(&config, id, 604801), Ok(ProposalState::Cancelled));
    assert_eq!(engine.queue_proposal(id), Ok(ProposalState::Cancelled));
    assert_eq!(engine.execute_proposal(&config, id, u64::MAX), Ok(ProposalState::Cancelled));
    assert_eq!(
        engine.cancel_proposal(id, address(1), false),
        Err(SavingsError::Unauthorized)
    );
}

#[test]
fn admin_cancels_succeeded_and_queued_proposals() {
    let (mut engine, config, id) = engine_with_proposal();
    engine.vote(&config, id, VoteType::For, address(10), true, 6000, 100).unwrap();
    engine.finalize(&config, id, WEEK).unwrap();
    assert_eq!(engine.cancel_proposal(id, address(9), true), Ok(()));
    assert_eq!(engine.proposal(id).unwrap().state, ProposalState::Cancelled);

    let second = engine
        .create_proposal(&config, address(1), String::from("Queued"), 100, 10_000, 0)
        .unwrap();
    engine.vote(&config, second, VoteType::For, address(10), true, 6000, 100).unwrap();
    engine.finalize(&config, second, WEEK).unwrap();
    assert_eq!(engine.queue_proposal(second), Ok(ProposalState::Queued));
    assert_eq!(engine.cancel_proposal(second, address(1), false), Ok(()));
    assert_eq!(engine.proposal(second).unwrap().state, ProposalState::Cancelled);
}

#[test]
fn strangers_may_not_cancel() {
    let (mut engine, _, id) = engine_with_proposal();
    assert_eq!(
        engine.cancel_proposal(id, address(2), false),
        Err(SavingsError::Unauthorized)
    );
    assert_eq!(
        engine.cancel_proposal(id, Address::contract([1u8; 32]), false),
        Err(SavingsError::Unauthorized)
    );
    assert_eq!(engine.proposal(id).unwrap().state, ProposalState::Active);
}

#[test]
fn defeated_and_executed_proposals_cannot_be_cancelled() {
    let (mut engine, config, id) = engine_with_proposal();
    engine.finalize(&config, id, WEEK).unwrap();
    assert_eq!(engine.proposal(id).unwrap().state, ProposalState::Defeated);
    assert_eq!(
        engine.cancel_proposal(id, address(1), true),
        Err(SavingsError::Unauthorized)
    );

    let second = engine
        .create_proposal(&config, address(1), String::from("Executed"), 100, 10_000, 0)
        .unwrap();
    engine.vote(&config, second, VoteType::For, address(10), true, 6000, 100).unwrap();
    engine.finalize(&config, second, WEEK).unwrap();
    engine.queue_proposal(second).unwrap();
    assert_eq!(
        engine.execute_proposal(&config, second, WEEK + 86400),
        Ok(ProposalState::Executed)
    );
    assert_eq!(
        engine.cancel_proposal(second, address(1), true),
        Err(SavingsError::Unauthorized)
    );
    assert_eq!(engine.proposal(second).unwrap().state, ProposalState::Executed);
}

#[test]
fn cancel_unknown_proposal_is_not_found() {
    let (mut engine, _, _) = engine_with_proposal();
    assert_eq!(engine.cancel_proposal(0, address(1), true), Err(SavingsError::NotFound));
    assert_eq!(engine.cancel_proposal(7, address(1), true), Err(SavingsError::NotFound));
}

#[test]
fn only_succeeded_proposals_are_queued() {
    let (mut engine, config, id) = engine_with_proposal();
    assert_eq!(engine.queue_proposal(id), Ok(ProposalState::Active));
    engine.vote(&config, id, VoteType::For, address(10), true, 6000, 100).unwrap();
    engine.finalize(&config, id, WEEK).unwrap();
    assert_eq!(engine.queue_proposal(id), Ok(ProposalState::Queued));
    assert_eq!(engine.queue_proposal(id), Ok(ProposalState::Queued));
    assert_eq!(engine.queue_proposal(5), Err(SavingsError::NotFound));
}

#[test]
fn queued_proposals_execute_after_the_delay() {
    let (mut engine, config, id) = engine_with_proposal();
    engine.vote(&config, id, VoteType::For, address(10), true, 6000, 100).unwrap();
    engine.finalize(&config, id, WEEK).unwrap();
    // not queued yet
    assert_eq!(
        engine.execute_proposal(&config, id, u64::MAX),
        Ok(ProposalState::Succeeded)
    );
    engine.queue_proposal(id).unwrap();
    assert_eq!(
        engine.execute_proposal(&config, id, WEEK + 86399),
        Ok(ProposalState::Queued)
    );
    assert_eq!(
        engine.execute_proposal(&config, id, WEEK + 86400),
        Ok(ProposalState::Executed)
    );
    assert_eq!(
        engine.execute_proposal(&config, id, WEEK + 86400),
        Ok(ProposalState::Executed)
    );
    assert_eq!(engine.execute_proposal(&config, 5, 0), Err(SavingsError::NotFound));
    assert_eq!(tallies(&engine, id), (6000, 0, 0));
}

#[test]
fn refused_calls_change_nothing() {
    let (mut engine, config, id) = engine_with_proposal();
    engine.vote(&config, id, VoteType::For, address(10), true, 6000, 100).unwrap();
    let proposal_before = engine.proposal(id).unwrap().clone();
    let receipts_before = engine.store().receipts().clone();
    let events_before = engine.events().clone();

    assert!(engine.create_proposal(&config, address(1), String::new(), 100, 1, 0).is_err());
    assert!(engine.create_proposal(&config, address(1), String::from("x"), 0, 1, 0).is_err());
    assert!(engine.vote(&config, id, VoteType::For, address(10), true, 1, 200).is_err());
    assert!(engine.vote(&config, id, VoteType::For, address(11), false, 1, 200).is_err());
    assert!(engine.vote(&config, id, VoteType::For, address(11), true, 0, 200).is_err());
    assert!(engine.vote(&config, id, VoteType::For, address(11), true, 1, WEEK).is_err());
    assert!(engine.vote(&config, 9, VoteType::For, address(11), true, 1, 200).is_err());
    assert!(engine.finalize(&config, 9, WEEK).is_err());
    assert!(engine.queue_proposal(9).is_err());
    assert!(engine.execute_proposal(&config, 9, WEEK).is_err());
    assert!(engine.cancel_proposal(9, address(1), true).is_err());
    assert!(engine.cancel_proposal(id, address(2), false).is_err());

    assert_eq!(engine.proposal_count(), 1);
    assert_eq!(engine.proposal(id).unwrap(), &proposal_before);
    assert_eq!(engine.store().receipts(), &receipts_before);
    assert_eq!(engine.events(), &events_before);
}

#[test]
fn events_are_in_call_order() {
    let (mut engine, config, id) = engine_with_proposal();
    engine.vote(&config, id, VoteType::For, address(10), true, 1, 1).unwrap();
    let second = engine
        .create_proposal(&config, address(2), String::from("Second"), 100, 10_000, 2)
        .unwrap();
    engine.vote(&config, second, VoteType::Abstain, address(11), true, 2, 3).unwrap();
    let seen: Vec<(&str, u64, Address)> = engine
        .events()
        .iter()
        .map(|e| (e.action_tag(), e.proposal_id(), e.primary_address()))
        .collect();
    assert_eq!(
        seen,
        vec![
            ("created", 1, address(1)),
            ("voted", 1, address(10)),
            ("created", 2, address(2)),
            ("voted", 2, address(11)),
        ]
    );
}

#[test]
fn try_create_proposal_creates_where_it_can() {
    let config = config();
    let mut engine = GovernanceEngine::new(64);
    assert_eq!(
        engine.try_create_proposal(&config, address(1), String::from("Fits"), 100, 10_000, 0),
        Some(Ok(1))
    );
    assert_eq!(
        engine.try_create_proposal(&config, address(1), String::from("Poor"), 99, 10_000, 0),
        Some(Err(SavingsError::Unauthorized))
    );
    assert_eq!(
        engine.try_create_proposal(&config, address(1), String::new(), 100, 10_000, 0),
        Some(Err(SavingsError::InvalidInput))
    );
    // the window may end at the last moment there is
    assert_eq!(
        engine.try_create_proposal(
            &config,
            address(1),
            String::from("Late"),
            100,
            0,
            u64::MAX - WEEK
        ),
        Some(Ok(2))
    );
    assert_eq!(engine.proposal(2).unwrap().voting_ends_at, u64::MAX);
    assert_eq!(engine.proposal_count(), 2);
}

#[test]
fn try_create_proposal_is_none_out_of_range() {
    let config = config();
    let mut engine = GovernanceEngine::new(64);
    assert_eq!(
        engine.try_create_proposal(&config, address(1), String::from("Neg"), 100, -1, 0),
        None
    );
    assert_eq!(
        engine.try_create_proposal(
            &config,
            address(1),
            String::from("Late"),
            100,
            10_000,
            u64::MAX - WEEK + 1
        ),
        None
    );
    // out of range comes before every refusal
    assert_eq!(
        engine.try_create_proposal(&config, address(1), String::new(), 0, -1, u64::MAX),
        None
    );
    assert_eq!(engine.proposal_count(), 0);
    assert!(engine.events().is_empty());
}

#[test]
fn try_vote_votes_where_the_tallies_have_room() {
    let (mut engine, config, id) = engine_with_proposal();
    assert_eq!(
        engine.try_vote(&config, id, VoteType::For, address(10), true, i128::MAX - 1, 1),
        Some(Ok(i128::MAX - 1))
    );
    assert_eq!(
        engine.try_vote(&config, id, VoteType::For, address(11), true, 2, 2),
        None
    );
    assert!(engine.receipt(id, &address(11)).is_none());
    assert_eq!(tallies(&engine, id), (i128::MAX - 1, 0, 0));
    assert_eq!(engine.events().len(), 2);
    assert_eq!(
        engine.try_vote(&config, id, VoteType::Against, address(11), true, 1, 2),
        Some(Ok(1))
    );
    assert_eq!(
        engine.try_vote(&config, id, VoteType::Against, address(12), true, 0, 2),
        Some(Err(SavingsError::NoVotingPower))
    );
    assert_eq!(
        engine.try_vote(&config, 9, VoteType::Against, address(12), true, i128::MAX, 2),
        Some(Err(SavingsError::NotFound))
    );
    assert_eq!(tallies(&engine, id), (i128::MAX - 1, 1, 0));
}

#[test]
fn negative_power_is_no_power() {
    let (mut engine, config, id) = engine_with_proposal();
    assert_eq!(
        engine.vote(&config, id, VoteType::For, address(10), true, -5, 1),
        Err(SavingsError::NoVotingPower)
    );
    assert!(engine.receipt(id, &address(10)).is_none());
    assert_eq!(tallies(&engine, id), (0, 0, 0));
}
