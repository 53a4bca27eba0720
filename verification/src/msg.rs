//! The commands and queries that the ledger answers, and the answers to the queries.

use crate::state::{Ballot, Poll};
use vstd::prelude::*;

verus! {

/// Sets the ledger up. Without an administrator the caller becomes the administrator.
#[derive(Clone, Debug, PartialEq, Eq)]
pub struct InstantiateMsg {
    pub admin: Option<String>,
}

/// A command that changes the ledger.
#[derive(Clone, Debug, PartialEq, Eq)]
pub enum ExecuteMsg {
    /// Creates the poll `poll_id` with the given question and option labels.
    CreatePoll { poll_id: String, question: String, options: Vec<String> },
    /// Casts or changes the caller's vote in the poll `poll_id`.
    Vote { poll_id: String, vote: String },
}

/// A question about the ledger.
#[derive(Clone, Debug, PartialEq, Eq)]
pub enum QueryMsg {
    /// All polls, in ascending order of their identifiers.
    AllPolls {},
    /// The poll `poll_id`.
    Poll { poll_id: String },
    /// The ballot of `address` in the poll `poll_id`.
    Vote { poll_id: String, address: String },
    /// The configuration.
    Config {},
}

/// The answer to `QueryMsg::AllPolls`.
#[derive(Clone, Debug, PartialEq, Eq)]
pub struct AllPollsResponse {
    pub polls: Vec<Poll>,
}

/// The answer to `QueryMsg::Poll`: the poll, or nothing where there is none.
#[derive(Clone, Debug, PartialEq, Eq)]
pub struct PollResponse {
    pub poll: Option<Poll>,
}

/// The answer to `QueryMsg::Vote`: the ballot, or nothing where there is none.
#[derive(Clone, Debug, PartialEq, Eq)]
pub struct VoteResponse {
    pub vote: Option<Ballot>,
}

/// The answer to `QueryMsg::Config`.
#[derive(Clone, Debug, PartialEq, Eq)]
pub struct ConfigResponse {
    pub admin: String,
}

/// The answer to a query, by the kind of the query.
#[derive(Clone, Debug, PartialEq, Eq)]
pub enum QueryResponse {
    AllPolls(AllPollsResponse),
    Poll(PollResponse),
    Vote(VoteResponse),
    Config(ConfigResponse),
}

} // verus!
