use savings_governance::config::{ConfigSlot, VotingConfig};
use savings_governance::storage_types::SavingsError;

fn expected() -> VotingConfig {
    VotingConfig {
        quorum_bps: 5000,
        voting_period_seconds: 604800,
        execution_delay_seconds: 86400,
        proposal_threshold: 100,
        max_weight_bps: 10_000,
    }
}

#[test]
fn new_slot_is_empty() {
    assert_eq!(ConfigSlot::new().config(), None);
}

#[test]
fn admin_sets_the_parameters() {
    let mut slot = ConfigSlot::new();
    assert_eq!(
        slot.init_voting_config(true, 5000, 604800, 86400, 100, 10_000),
        Ok(())
    );
    assert_eq!(slot.config(), Some(expected()));
}

#[test]
fn others_may_not_set_the_parameters() {
    let mut slot = ConfigSlot::new();
    assert_eq!(
        slot.init_voting_config(false, 5000, 604800, 86400, 100, 10_000),
        Err(SavingsError::Unauthorized)
    );
    assert_eq!(slot.config(), None);
}

#[test]
fn parameters_are_set_once() {
    let mut slot = ConfigSlot::new();
    slot.init_voting_config(true, 5000, 604800, 86400, 100, 10_000)
        .unwrap();
    assert_eq!(
        slot.init_voting_config(true, 1, 2, 3, 4, 5),
        Err(SavingsError::Unauthorized)
    );
    assert_eq!(slot.config(), Some(expected()));
}

#[test]
fn restored_slot_holds_what_was_stored() {
    assert_eq!(ConfigSlot::restore(None).config(), None);
    let mut slot = ConfigSlot::restore(Some(expected()));
    assert_eq!(slot.config(), Some(expected()));
    assert_eq!(
        slot.init_voting_config(true, 1, 2, 3, 4, 5),
        Err(SavingsError::Unauthorized)
    );
}
