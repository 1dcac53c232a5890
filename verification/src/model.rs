//! The ledger as a mathematical value, and the three transitions as
//! functions on it.

use crate::address::{candidate_address, participation_address, poll_address};
use crate::error::{ProgramError, TransitionError};
use crate::instructions::window_check;
use crate::state::{CandidateView, ParticipationView, PollView};
use vstd::prelude::*;

verus! {

/// What one account holds.
pub enum AccountView {
    Poll(PollView),
    Candidate(CandidateView),
    Participation(ParticipationView),
}

/// The accounts of one program, each at its address.
pub struct LedgerView {
    pub program_id: Seq<u8>,
    pub accounts: Map<Seq<u8>, AccountView>,
}

/// One request to the ledger.
pub enum Transition {
    CreatePoll { now: nat, poll_id: u64, description: Seq<char>, poll_start: nat, poll_end: nat },
    RegisterCandidate { poll_id: u64, candidate_name: Seq<char> },
    CastVote { poll_id: u64, candidate_name: Seq<char>, voter: Seq<u8> },
}

impl AccountView {
    /// What holds of every account that the transitions leave behind: a
    /// poll's window is in order and its description fits, a candidate's
    /// name fits, and a participation record shows participation.
    pub open spec fn valid(self) -> bool {
        match self {
            AccountView::Poll(poll) => poll.valid(),
            AccountView::Candidate(candidate) => candidate.fits(),
            AccountView::Participation(record) => record.has_participated,
        }
    }
}

impl LedgerView {
    /// The ledger of a program that has no accounts yet.
    pub open spec fn empty(program_id: Seq<u8>) -> LedgerView {
        LedgerView { program_id, accounts: Map::empty() }
    }

    /// Whether an account of any kind sits at `address`.
    pub open spec fn occupied(self, address: Seq<u8>) -> bool {
        self.accounts.dom().contains(address)
    }

    /// The ledger with `account` at `address`, whatever was there before.
    pub open spec fn put(self, address: Seq<u8>, account: AccountView) -> LedgerView {
        LedgerView { accounts: self.accounts.insert(address, account), ..self }
    }

    /// Every account is valid.
    pub open spec fn valid(self) -> bool {
        forall|address: Seq<u8>| #[trigger]
            self.occupied(address) ==> self.accounts[address].valid()
    }

    /// The poll at `address`, if a poll sits there.
    pub open spec fn poll_at(self, address: Seq<u8>) -> Option<PollView> {
        if self.occupied(address) {
            match self.accounts[address] {
                AccountView::Poll(poll) => Some(poll),
                _ => None,
            }
        } else {
            None
        }
    }

    /// The candidate at `address`, if a candidate sits there.
    pub open spec fn candidate_at(self, address: Seq<u8>) -> Option<CandidateView> {
        if self.occupied(address) {
            match self.accounts[address] {
                AccountView::Candidate(candidate) => Some(candidate),
                _ => None,
            }
        } else {
            None
        }
    }

    /// The participation record at `address`, if one sits there.
    pub open spec fn participation_at(self, address: Seq<u8>) -> Option<ParticipationView> {
        if self.occupied(address) {
            match self.accounts[address] {
                AccountView::Participation(record) => Some(record),
                _ => None,
            }
        } else {
            None
        }
    }

    /// The poll `poll_id`, if it was created.
    pub open spec fn poll(self, poll_id: u64) -> Option<PollView> {
        match poll_address(self.program_id, poll_id) {
            Some(address) => self.poll_at(address),
            None => None,
        }
    }

    /// The candidate `candidate_name` of the poll `poll_id`, if it was
    /// registered.
    pub open spec fn candidate(self, poll_id: u64, candidate_name: Seq<char>) -> Option<
        CandidateView,
    > {
        match candidate_address(self.program_id, poll_id, candidate_name) {
            Some(address) => self.candidate_at(address),
            None => None,
        }
    }

    /// The participation record of `voter` in the poll `poll_id`, if `voter`
    /// has one.
    pub open spec fn participation(self, poll_id: u64, voter: Seq<u8>) -> Option<
        ParticipationView,
    > {
        match participation_address(self.program_id, poll_id, voter) {
            Some(address) => self.participation_at(address),
            None => None,
        }
    }

    /// CreatePoll. The window is validated first; then the poll is created
    /// at its derived address, which must exist and be free, with a
    /// description that fits.
    pub open spec fn create_poll(
        self,
        now: nat,
        poll_id: u64,
        description: Seq<char>,
        poll_start: nat,
        poll_end: nat,
    ) -> Result<LedgerView, TransitionError> {
        let poll = PollView::fresh(poll_id, description, poll_start, poll_end);
        match window_check(now, poll_start, poll_end) {
            Err(error) => Err(error),
            Ok(_) => match poll_address(self.program_id, poll_id) {
                None => Err(TransitionError::InvalidSeeds),
                Some(address) => if self.occupied(address) {
                    Err(TransitionError::AccountInUse)
                } else if !poll.fits() {
                    Err(TransitionError::AccountDidNotSerialize)
                } else {
                    Ok(self.put(address, AccountView::Poll(poll)))
                },
            },
        }
    }

    /// RegisterCandidate. The poll must exist; then the candidate is created
    /// at its derived address, which must exist and be free, and the poll
    /// counts one candidate more.
    pub open spec fn register_candidate(self, poll_id: u64, candidate_name: Seq<char>) -> Result<
        LedgerView,
        TransitionError,
    > {
        match self.poll(poll_id) {
            None => Err(TransitionError::AccountNotFound),
            Some(poll) => match candidate_address(self.program_id, poll_id, candidate_name) {
                None => Err(TransitionError::InvalidSeeds),
                Some(address) => if self.occupied(address) {
                    Err(TransitionError::AccountInUse)
                } else {
                    Ok(
                        self.put(
                            address,
                            AccountView::Candidate(CandidateView::fresh(candidate_name)),
                        ).put(
                            poll_address(self.program_id, poll_id)->Some_0,
                            AccountView::Poll(
                                PollView { candidate_amount: poll.candidate_amount + 1, ..poll },
                            ),
                        ),
                    )
                },
            },
        }
    }

    /// The participation record with which `voter` enters the poll
    /// `poll_id`: the one stored for it, a blank one where none is stored,
    /// or an error where the record's address cannot be had.
    pub open spec fn entry_record(self, poll_id: u64, voter: Seq<u8>) -> Result<
        ParticipationView,
        TransitionError,
    > {
        match participation_address(self.program_id, poll_id, voter) {
            None => Err(TransitionError::InvalidSeeds),
            Some(address) => if !self.occupied(address) {
                Ok(ParticipationView::blank())
            } else {
                match self.accounts[address] {
                    AccountView::Participation(record) => Ok(record),
                    _ => Err(TransitionError::AccountInUse),
                }
            },
        }
    }

    /// CastVote. Poll and candidate must exist; the voter's record for this
    /// poll is loaded, or created blank, and must not show participation;
    /// then the record is set and candidate and poll count one vote more.
    pub open spec fn cast_vote(self, poll_id: u64, candidate_name: Seq<char>, voter: Seq<u8>) -> Result<
        LedgerView,
        TransitionError,
    > {
        match (self.poll(poll_id), self.candidate(poll_id, candidate_name)) {
            (Some(poll), Some(candidate)) => match self.entry_record(poll_id, voter) {
                Err(error) => Err(error),
                Ok(record) => if record.has_participated {
                    Err(TransitionError::Program(ProgramError::DuplicateVoteAttempt))
                } else {
                    let poll_key = poll_address(self.program_id, poll_id)->Some_0;
                    Ok(
                        self.put(
                            participation_address(self.program_id, poll_id, voter)->Some_0,
                            AccountView::Participation(
                                ParticipationView {
                                    has_participated: true,
                                    poll_reference: poll_key,
                                },
                            ),
                        ).put(
                            candidate_address(self.program_id, poll_id, candidate_name)->Some_0,
                            AccountView::Candidate(
                                CandidateView {
                                    candidate_votes: candidate.candidate_votes + 1,
                                    ..candidate
                                },
                            ),
                        ).put(
                            poll_key,
                            AccountView::Poll(
                                PollView { total_votes: poll.total_votes + 1, ..poll },
                            ),
                        ),
                    )
                },
            },
            _ => Err(TransitionError::AccountNotFound),
        }
    }

    /// How a transition that is expected to end as `expected` has ended:
    /// with the new ledger where it succeeds, and with the error and the
    /// ledger untouched where it fails.
    pub open spec fn committed(
        self,
        expected: Result<LedgerView, TransitionError>,
        after: LedgerView,
        outcome: Result<(), TransitionError>,
    ) -> bool {
        match expected {
            Ok(next) => outcome is Ok && after == next,
            Err(error) => outcome == Err::<(), TransitionError>(error) && after == self,
        }
    }

    /// The transition that `request` asks for.
    pub open spec fn apply(self, request: Transition) -> Result<LedgerView, TransitionError> {
        match request {
            Transition::CreatePoll { now, poll_id, description, poll_start, poll_end } => {
                self.create_poll(now, poll_id, description, poll_start, poll_end)
            },
            Transition::RegisterCandidate { poll_id, candidate_name } => {
                self.register_candidate(poll_id, candidate_name)
            },
            Transition::CastVote { poll_id, candidate_name, voter } => {
                self.cast_vote(poll_id, candidate_name, voter)
            },
        }
    }
}

} // verus!
