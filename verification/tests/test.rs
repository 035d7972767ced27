use savings_governance::address::Address;
use savings_governance::storage_types::{DataKey, SavingsError, User};

#[test]
fn test() {}

#[test]
fn new_user_holds_nothing() {
    let user = User::new();
    assert_eq!(user.total_balance, 0);
    assert_eq!(user.savings_count, 0);
}

#[test]
fn default_user_is_a_new_user() {
    assert_eq!(User::default(), User::new());
}

#[test]
fn error_codes_are_stable() {
    assert_eq!(SavingsError::DuplicateUser.code(), 1);
    assert_eq!(SavingsError::UserNotFound.code(), 2);
    assert_eq!(SavingsError::Unauthorized.code(), 3);
    assert_eq!(SavingsError::NotFound.code(), 4);
    assert_eq!(SavingsError::InvalidInput.code(), 5);
    assert_eq!(SavingsError::VotingClosed.code(), 6);
    assert_eq!(SavingsError::AlreadyVoted.code(), 7);
    assert_eq!(SavingsError::NoVotingPower.code(), 8);
}

#[test]
fn errors_are_ordered_as_declared() {
    assert!(SavingsError::DuplicateUser < SavingsError::UserNotFound);
    assert!(SavingsError::UserNotFound < SavingsError::Unauthorized);
    assert!(SavingsError::Unauthorized < SavingsError::NoVotingPower);
}

#[test]
fn data_key_carries_the_address() {
    let address = Address::account([9u8; 32]);
    let DataKey::User(held) = DataKey::User(address);
    assert_eq!(held, address);
}

#[test]
fn addresses_are_equal_when_kind_and_key_agree() {
    let mut key = [0u8; 32];
    key[31] = 1;
    assert_eq!(Address::account(key), Address::account(key));
    assert_ne!(Address::account(key), Address::contract(key));
    assert_ne!(Address::account(key), Address::account([0u8; 32]));
    assert!(Address::contract(key).same_as(&Address::contract(key)));
    assert!(!Address::contract(key).same_as(&Address::account(key)));
}
