//! A persistent voting ledger for a CosmWasm host.
//!
//! Polls are created with at most ten labelled options, each voter holds at most one ballot
//! per poll, and every vote moves the tallies so that they keep counting the recorded ballots.
//! The records live in the host's key-value storage, which is reached through [`host::Host`].

pub mod contract;
pub mod counting;
pub mod error;
pub mod host;
pub mod laws;
pub mod ledger;
pub mod listing;
pub mod msg;
pub mod state;
pub mod tally;

pub use crate::error::ContractError;
