//! Token-weighted governance: proposals, weighted votes in a time window,
//! and execution of a fund transfer once a proposal clears its quorum.
use vstd::prelude::*;

pub mod governor;

pub use governor::{
    quorum_reached, quorum_threshold, AccountId, Balance, Governor, GovernorError, GovernorView,
    Proposal, ProposalId, ProposalVote, Timestamp, Transfer, VoteType,
};
