//! The records published for those who follow governance from outside.
//!
//! Every event carries three topics, in this order: the domain tag, the
//! action tag and the address the action is about. Its payload is the
//! record of that action.

use vstd::prelude::*;
use crate::address::Address;
use crate::proposal::VoteType;

verus! {

/// The domain tag of every governance event.
pub const DOMAIN_TAG: &'static str = "gov";

/// The action tag of a proposal's creation.
pub const CREATED_TAG: &'static str = "created";

/// The action tag of a vote.
pub const VOTED_TAG: &'static str = "voted";

/// Payload of the event published when a proposal is created.
#[derive(Clone, Debug, PartialEq, Eq)]
pub struct ProposalCreated {
    pub proposal_id: u64,
    pub creator: Address,
    pub description: String,
}

/// Payload of the event published when a vote is cast.
#[derive(Clone, Copy, Debug, PartialEq, Eq)]
pub struct VoteCast {
    pub proposal_id: u64,
    pub voter: Address,
    pub vote_type: VoteType,
    /// The weight the vote counted for.
    pub weight: i128,
}

/// One topic of an event.
#[derive(Clone, Copy, Debug, PartialEq, Eq)]
pub enum Topic {
    Tag(&'static str),
    Address(Address),
}

/// An event: the record of one successful state-changing action.
#[derive(Clone, Debug, PartialEq, Eq)]
pub enum GovernanceEvent {
    Created(ProposalCreated),
    Voted(VoteCast),
}

impl GovernanceEvent {
    /// The tag that names the action.
    pub open spec fn spec_action_tag(&self) -> &'static str {
        match self {
            GovernanceEvent::Created(_) => CREATED_TAG,
            GovernanceEvent::Voted(_) => VOTED_TAG,
        }
    }

    /// See [`GovernanceEvent::spec_action_tag`].
    #[verifier::when_used_as_spec(spec_action_tag)]
    pub fn action_tag(&self) -> (tag: &'static str)
        ensures
            tag == self.spec_action_tag(),
    {
        match self {
            GovernanceEvent::Created(_) => CREATED_TAG,
            GovernanceEvent::Voted(_) => VOTED_TAG,
        }
    }

    /// The address the action is about: the creator of the proposal, or
    /// the voter.
    pub open spec fn spec_primary_address(&self) -> Address {
        match self {
            GovernanceEvent::Created(payload) => payload.creator,
            GovernanceEvent::Voted(payload) => payload.voter,
        }
    }

    /// See [`GovernanceEvent::spec_primary_address`].
    #[verifier::when_used_as_spec(spec_primary_address)]
    pub fn primary_address(&self) -> (address: Address)
        ensures
            address == self.spec_primary_address(),
    {
        match self {
            GovernanceEvent::Created(payload) => payload.creator,
            GovernanceEvent::Voted(payload) => payload.voter,
        }
    }

    /// The proposal the action is about.
    pub open spec fn spec_proposal_id(&self) -> u64 {
        match self {
            GovernanceEvent::Created(payload) => payload.proposal_id,
            GovernanceEvent::Voted(payload) => payload.proposal_id,
        }
    }

    /// See [`GovernanceEvent::spec_proposal_id`].
    #[verifier::when_used_as_spec(spec_proposal_id)]
    pub fn proposal_id(&self) -> (id: u64)
        ensures
            id == self.spec_proposal_id(),
    {
        match self {
            GovernanceEvent::Created(payload) => payload.proposal_id,
            GovernanceEvent::Voted(payload) => payload.proposal_id,
        }
    }

    /// The three topics of an event.
    pub open spec fn spec_topics(&self) -> Seq<Topic> {
        seq![
            Topic::Tag(DOMAIN_TAG),
            Topic::Tag(self.spec_action_tag()),
            Topic::Address(self.spec_primary_address()),
        ]
    }

    /// The topics under which the event is published.
    pub fn topics(&self) -> (topics: Vec<Topic>)
        ensures
            topics@ == self.spec_topics(),
    {
        let mut topics: Vec<Topic> = Vec::new();
        topics.push(Topic::Tag(DOMAIN_TAG));
        topics.push(Topic::Tag(self.action_tag()));
        topics.push(Topic::Address(self.primary_address()));
        topics
    }
}

/// The emitter: it takes the events of successful actions and keeps them
/// in the order in which they were emitted, for whoever publishes them.
pub struct EventEmitter {
    log: Vec<GovernanceEvent>,
}

impl View for EventEmitter {
    type V = Seq<GovernanceEvent>;

    closed spec fn view(&self) -> Seq<GovernanceEvent> {
        self.log@
    }
}

impl EventEmitter {
    /// An emitter that has emitted nothing.
    pub fn new() -> (emitter: EventEmitter)
        ensures
            emitter@ == Seq::<GovernanceEvent>::empty(),
    {
        EventEmitter { log: Vec::new() }
    }

    /// Emits `event`, after all that were emitted before.
    pub fn emit(&mut self, event: GovernanceEvent)
        ensures
            final(self)@ == old(self)@.push(event),
    {
        self.log.push(event);
    }

    /// The events emitted so far, oldest first.
    pub fn events(&self) -> (events: &Vec<GovernanceEvent>)
        ensures
            events@ == self@,
    {
        &self.log
    }
}

} // verus!
