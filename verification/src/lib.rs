//! Governance for a savings platform.
//!
//! Holders of savings vote on proposals with the weight of what they hold.
//! A proposal is created, collects at most one weighted vote per address
//! while its voting window is open, is settled by majority and quorum once
//! the window has ended, and can then be queued and executed, or be
//! cancelled before it is executed.
//!
//! - [`state`] says what every call does, over plain mathematical values.
//! - [`engine`] does it, and [`store`] keeps the records.
//! - [`laws`] states what holds whatever is asked: tallies only grow and
//!   only by votes, no address votes twice on a proposal, settling is
//!   idempotent, a refused call changes nothing.
//! - [`proposal`], [`config`], [`events`] and [`storage_types`] hold the
//!   records; [`bps`] the exact arithmetic for quorum and vote limits;
//!   [`records`] the checks on records that come back from storage.

pub mod address;
pub mod bps;
pub mod config;
pub mod engine;
pub mod events;
pub mod laws;
pub mod proposal;
pub mod records;
pub mod state;
pub mod storage_types;
pub mod store;
