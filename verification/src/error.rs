//! The error taxonomy of the three transitions.

use vstd::prelude::*;

verus! {

/// Why a poll cannot be created with the given time window.
#[derive(Clone, Copy, Debug, PartialEq, Eq, Structural)]
pub enum ErrorCode {
    /// The end time is not strictly after the current time.
    PollEndInPast,
    /// The start time is after the end time.
    PollStartAfterEnd,
}

/// Time-window errors for voting. They are part of the taxonomy, but no
/// transition raises them: a poll that exists accepts votes at any time.
#[derive(Clone, Copy, Debug, PartialEq, Eq, Structural)]
pub enum VotingError {
    /// The poll's window has not opened yet.
    PollNotStarted,
    /// The poll's window has closed.
    PollEnded,
}

/// Why a ballot is refused.
#[derive(Clone, Copy, Debug, PartialEq, Eq, Structural)]
pub enum ProgramError {
    /// The identity has already voted in this poll.
    DuplicateVoteAttempt,
}

/// The one error with which a transition aborts. A transition that returns
/// an error has changed nothing.
#[derive(Clone, Copy, Debug, PartialEq, Eq, Structural)]
pub enum TransitionError {
    /// The poll's time window was rejected.
    Poll(ErrorCode),
    /// The ballot was rejected.
    Program(ProgramError),
    /// Reserved for time-window enforcement on voting.
    Voting(VotingError),
    /// A poll or candidate that the transition refers to was never created.
    AccountNotFound,
    /// The address at which an account was to be created is occupied.
    AccountInUse,
    /// No address can be derived for the account that was to be created.
    InvalidSeeds,
    /// The account's contents do not fit the space allotted to it.
    AccountDidNotSerialize,
    /// The runtime did not supply the current time.
    ClockUnavailable,
}

impl ErrorCode {
    /// The message of each error.
    pub open spec fn message_text(self) -> Seq<char> {
        match self {
            ErrorCode::PollEndInPast => "The poll end time must be in the future."@,
            ErrorCode::PollStartAfterEnd => "The poll start time must be before the end time."@,
        }
    }

    /// The text shown to the caller for this error.
    pub fn message(&self) -> (text: &'static str)
        ensures
            text@ == self.message_text(),
    {
        match self {
            ErrorCode::PollEndInPast => "The poll end time must be in the future.",
            ErrorCode::PollStartAfterEnd => "The poll start time must be before the end time.",
        }
    }
}

impl VotingError {
    /// The message of each error.
    pub open spec fn message_text(self) -> Seq<char> {
        match self {
            VotingError::PollNotStarted => "The poll has not started yet."@,
            VotingError::PollEnded => "The poll has already ended."@,
        }
    }

    /// The text shown to the caller for this error.
    pub fn message(&self) -> (text: &'static str)
        ensures
            text@ == self.message_text(),
    {
        match self {
            VotingError::PollNotStarted => "The poll has not started yet.",
            VotingError::PollEnded => "The poll has already ended.",
        }
    }
}

impl ProgramError {
    /// The message of each error.
    pub open spec fn message_text(self) -> Seq<char> {
        match self {
            ProgramError::DuplicateVoteAttempt => "This wallet has already participated in the current poll."@,
        }
    }

    /// The text shown to the caller for this error.
    pub fn message(&self) -> (text: &'static str)
        ensures
            text@ == self.message_text(),
    {
        match self {
            ProgramError::DuplicateVoteAttempt => "This wallet has already participated in the current poll.",
        }
    }
}

} // verus!
