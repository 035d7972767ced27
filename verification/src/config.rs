//! The parameters every proposal is governed by.
//!
//! The parameters are set once, by an administrator. The engine does not
//! own them: each call that decides by them is handed the record, read
//! only.

use vstd::prelude::*;
use crate::storage_types::SavingsError;

verus! {

/// The voting parameters.
#[derive(Clone, Copy, Debug, PartialEq, Eq, Structural)]
pub struct VotingConfig {
    /// Least participation, in basis points of the total voting power, for
    /// a result to bind.
    pub quorum_bps: u32,
    /// Length of the voting window, in seconds.
    pub voting_period_seconds: u64,
    /// Time between the end of the voting window and the earliest
    /// execution, in seconds.
    pub execution_delay_seconds: u64,
    /// Least voting power a creator must hold.
    pub proposal_threshold: i128,
    /// Largest share of the total voting power, in basis points, that one
    /// vote may count for; zero switches the limit off.
    pub max_weight_bps: u32,
}

/// The place where the voting parameters are kept: empty until an
/// administrator sets them, and unchanged from then on.
#[derive(Clone, Copy, Debug)]
pub struct ConfigSlot {
    config: Option<VotingConfig>,
}

impl View for ConfigSlot {
    type V = Option<VotingConfig>;

    closed spec fn view(&self) -> Option<VotingConfig> {
        self.config
    }
}

impl ConfigSlot {
    /// An empty slot.
    pub fn new() -> (slot: ConfigSlot)
        ensures
            slot@ is None,
    {
        ConfigSlot { config: None }
    }

    /// The slot as it was last stored.
    pub fn restore(config: Option<VotingConfig>) -> (slot: ConfigSlot)
        ensures
            slot@ == config,
    {
        ConfigSlot { config }
    }

    /// The parameters, once they are set.
    pub fn config(&self) -> (config: Option<VotingConfig>)
        ensures
            config == self@,
    {
        self.config
    }

    /// Whether a call of `init_voting_config` is accepted: the slot is
    /// empty and the caller is an administrator.
    pub open spec fn accepts_init(self, caller_is_admin: bool) -> bool {
        self@ is None && caller_is_admin
    }

    /// Sets the voting parameters.
    ///
    /// `caller_is_admin` is the answer of the platform's administrator
    /// check for the caller. The call is refused with `Unauthorized`, and
    /// changes nothing, if the caller is no administrator or if the
    /// parameters are set already: once set, no administrator may replace
    /// them.
    pub fn init_voting_config(
        &mut self,
        caller_is_admin: bool,
        quorum_bps: u32,
        voting_period_seconds: u64,
        execution_delay_seconds: u64,
        proposal_threshold: i128,
        max_weight_bps: u32,
    ) -> (result: Result<(), SavingsError>)
        ensures
            old(self).accepts_init(caller_is_admin) ==> result is Ok && final(self)@ == Some(
                VotingConfig {
                    quorum_bps,
                    voting_period_seconds,
                    execution_delay_seconds,
                    proposal_threshold,
                    max_weight_bps,
                },
            ),
            !old(self).accepts_init(caller_is_admin) ==> result == Err::<(), SavingsError>(
                SavingsError::Unauthorized,
            ) && final(self)@ == old(self)@,
    {
        if !caller_is_admin || self.config.is_some() {
            return Err(SavingsError::Unauthorized);
        }
        self.config = Some(
            VotingConfig {
                quorum_bps,
                voting_period_seconds,
                execution_delay_seconds,
                proposal_threshold,
                max_weight_bps,
            },
        );
        Ok(())
    }
}

} // verus!
