//! State-transition logic of a ledger-resident voting application.
//!
//! Polls, candidates and per-voter participation records live at addresses
//! derived from a namespace tag and their key fields. The transitions create
//! polls, register candidates and record at most one ballot per identity
//! and poll.

pub mod address;
pub mod error;
pub mod instructions;
pub mod laws;
pub mod ledger;
pub mod model;
pub mod state;

pub use address::{
    derive_candidate_address, derive_participation_address, derive_poll_address, Address,
    MAX_SEED_LEN,
};
pub use error::{ErrorCode, ProgramError, TransitionError, VotingError};
pub use instructions::{
    initialize_candidate, initialize_poll, initialize_poll_at, unix_seconds, vote,
    InitializeCandidate, InitializePoll, Vote,
};
pub use ledger::Ledger;
pub use state::{
    Candidate, ParticipationRecord, Poll, MAX_CANDIDATE_NAME_LEN, MAX_DESCRIPTION_LEN,
};
