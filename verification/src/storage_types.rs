//! Records shared across the platform: the error kinds every call reports
//! through, the keys under which account data is kept, and the account
//! record itself.

use vstd::prelude::*;
use crate::address::Address;

verus! {

/// Every way a call can be refused.
#[derive(Clone, Copy, Debug, PartialEq, Eq, Structural, PartialOrd, Ord)]
pub enum SavingsError {
    /// The account already exists.
    DuplicateUser,
    /// No such account is stored.
    UserNotFound,
    /// The caller may not perform the action.
    Unauthorized,
    /// No proposal has the given identifier.
    NotFound,
    /// An argument is outside what the call accepts.
    InvalidInput,
    /// The proposal no longer accepts votes.
    VotingClosed,
    /// The voter has already voted on the proposal.
    AlreadyVoted,
    /// The voter holds no voting power.
    NoVotingPower,
}

impl SavingsError {
    /// The numeric code under which the error is reported to callers
    /// outside the platform.
    pub open spec fn spec_code(self) -> u32 {
        match self {
            SavingsError::DuplicateUser => 1,
            SavingsError::UserNotFound => 2,
            SavingsError::Unauthorized => 3,
            SavingsError::NotFound => 4,
            SavingsError::InvalidInput => 5,
            SavingsError::VotingClosed => 6,
            SavingsError::AlreadyVoted => 7,
            SavingsError::NoVotingPower => 8,
        }
    }

    /// See [`SavingsError::spec_code`].
    #[verifier::when_used_as_spec(spec_code)]
    pub fn code(self) -> (c: u32)
        ensures
            c == self.spec_code(),
    {
        match self {
            SavingsError::DuplicateUser => 1,
            SavingsError::UserNotFound => 2,
            SavingsError::Unauthorized => 3,
            SavingsError::NotFound => 4,
            SavingsError::InvalidInput => 5,
            SavingsError::VotingClosed => 6,
            SavingsError::AlreadyVoted => 7,
            SavingsError::NoVotingPower => 8,
        }
    }
}

/// Keys under which account data is stored.
#[derive(Clone, Copy, Debug)]
pub enum DataKey {
    /// The account record of an address.
    User(Address),
}

/// An account: what it holds across all of its savings plans.
#[derive(Clone, Copy, Debug, PartialEq, Eq, Structural)]
pub struct User {
    /// Total balance across all savings plans.
    pub total_balance: i128,
    /// Number of active savings plans.
    pub savings_count: u32,
}

impl User {
    /// A new account, holding nothing.
    pub fn new() -> (user: User)
        ensures
            user.total_balance == 0,
            user.savings_count == 0,
    {
        User { total_balance: 0, savings_count: 0 }
    }
}

impl Default for User {
    fn default() -> (user: User)
        ensures
            user.total_balance == 0,
            user.savings_count == 0,
    {
        User::new()
    }
}

} // verus!
