//! What holds of the transitions, whatever the ledger and the inputs.

use crate::address::{candidate_address, participation_address, poll_address};
use crate::error::{ErrorCode, ProgramError, TransitionError, VotingError};
use crate::model::{LedgerView, Transition};
use crate::state::{CandidateView, ParticipationView, PollView};
use vstd::prelude::*;

verus! {

/// A poll whose window is in order and ends after `now`, whose description
/// fits and whose address is free, is created; it then counts no candidates
/// and no votes.
pub proof fn create_poll_succeeds(
    ledger: LedgerView,
    now: nat,
    poll_id: u64,
    description: Seq<char>,
    poll_start: nat,
    poll_end: nat,
)
    requires
        poll_start <= poll_end,
        poll_end > now,
        PollView::fresh(poll_id, description, poll_start, poll_end).fits(),
        poll_address(ledger.program_id, poll_id) is Some,
        !ledger.occupied(poll_address(ledger.program_id, poll_id)->Some_0),
    ensures
        ledger.create_poll(now, poll_id, description, poll_start, poll_end) is Ok,
        ledger.create_poll(now, poll_id, description, poll_start, poll_end)->Ok_0.poll(poll_id)
            == Some(PollView::fresh(poll_id, description, poll_start, poll_end)),
        PollView::fresh(poll_id, description, poll_start, poll_end).candidate_amount == 0,
        PollView::fresh(poll_id, description, poll_start, poll_end).total_votes == 0,
{
}

/// The window is judged before anything else: whatever the ledger holds, a
/// start after the end is refused as such, and otherwise an end that is not
/// after `now` is refused as such.
pub proof fn create_poll_checks_window_first(
    ledger: LedgerView,
    now: nat,
    poll_id: u64,
    description: Seq<char>,
    poll_start: nat,
    poll_end: nat,
)
    ensures
        poll_start > poll_end ==> ledger.create_poll(
            now,
            poll_id,
            description,
            poll_start,
            poll_end,
        ) == Err::<LedgerView, TransitionError>(
            TransitionError::Poll(ErrorCode::PollStartAfterEnd),
        ),
        poll_start <= poll_end <= now ==> ledger.create_poll(
            now,
            poll_id,
            description,
            poll_start,
            poll_end,
        ) == Err::<LedgerView, TransitionError>(TransitionError::Poll(ErrorCode::PollEndInPast)),
{
}

/// A poll that was created cannot be created again: a second request with
/// a window that is in order finds the address taken.
pub proof fn create_poll_once(
    ledger: LedgerView,
    now: nat,
    poll_id: u64,
    description: Seq<char>,
    poll_start: nat,
    poll_end: nat,
)
    requires
        ledger.poll(poll_id) is Some,
    ensures
        ledger.create_poll(now, poll_id, description, poll_start, poll_end) is Err,
        poll_start <= poll_end && now < poll_end ==> ledger.create_poll(
            now,
            poll_id,
            description,
            poll_start,
            poll_end,
        ) == Err::<LedgerView, TransitionError>(TransitionError::AccountInUse),
{
}

/// A candidate cannot be registered for a poll that does not exist.
pub proof fn register_candidate_needs_poll(
    ledger: LedgerView,
    poll_id: u64,
    candidate_name: Seq<char>,
)
    requires
        ledger.poll(poll_id) is None,
    ensures
        ledger.register_candidate(poll_id, candidate_name) == Err::<LedgerView, TransitionError>(
            TransitionError::AccountNotFound,
        ),
{
}

/// After a candidate was registered, the poll counts one candidate more and
/// the candidate has no votes; registering the same name for the same poll
/// again fails, because its address is taken.
pub proof fn register_candidate_once(
    ledger: LedgerView,
    poll_id: u64,
    candidate_name: Seq<char>,
)
    requires
        ledger.register_candidate(poll_id, candidate_name) is Ok,
    ensures
        ({
            let next = ledger.register_candidate(poll_id, candidate_name)->Ok_0;
            &&& next.poll(poll_id) == Some(
                PollView {
                    candidate_amount: ledger.poll(poll_id)->Some_0.candidate_amount + 1,
                    ..ledger.poll(poll_id)->Some_0
                },
            )
            &&& next.candidate(poll_id, candidate_name) == Some(
                CandidateView::fresh(candidate_name),
            )
            &&& next.register_candidate(poll_id, candidate_name) == Err::<
                LedgerView,
                TransitionError,
            >(TransitionError::AccountInUse)
        }),
{
}

/// A ballot for an existing candidate of an existing poll, by an identity
/// whose record for this poll does not show participation, is accepted. It
/// adds exactly one vote to the candidate and one to the poll, and leaves
/// the voter's record set, with the poll's address as its reference.
pub proof fn cast_vote_counts_once(
    ledger: LedgerView,
    poll_id: u64,
    candidate_name: Seq<char>,
    voter: Seq<u8>,
)
    requires
        ledger.poll(poll_id) is Some,
        ledger.candidate(poll_id, candidate_name) is Some,
        ledger.entry_record(poll_id, voter) is Ok,
        !ledger.entry_record(poll_id, voter)->Ok_0.has_participated,
    ensures
        ledger.cast_vote(poll_id, candidate_name, voter) is Ok,
        ({
            let next = ledger.cast_vote(poll_id, candidate_name, voter)->Ok_0;
            &&& next.candidate(poll_id, candidate_name) == Some(
                CandidateView {
                    candidate_votes: ledger.candidate(
                        poll_id,
                        candidate_name,
                    )->Some_0.candidate_votes + 1,
                    ..ledger.candidate(poll_id, candidate_name)->Some_0
                },
            )
            &&& next.poll(poll_id) == Some(
                PollView {
                    total_votes: ledger.poll(poll_id)->Some_0.total_votes + 1,
                    ..ledger.poll(poll_id)->Some_0
                },
            )
            &&& next.participation(poll_id, voter) == Some(
                ParticipationView {
                    has_participated: true,
                    poll_reference: poll_address(ledger.program_id, poll_id)->Some_0,
                },
            )
        }),
{
}

/// After an identity has voted in a poll, its next ballot in that poll, for
/// the same or any other candidate of the poll, is refused as a duplicate.
pub proof fn cast_vote_twice(
    ledger: LedgerView,
    poll_id: u64,
    candidate_name: Seq<char>,
    other_name: Seq<char>,
    voter: Seq<u8>,
)
    requires
        ledger.cast_vote(poll_id, candidate_name, voter) is Ok,
    ensures
        ({
            let next = ledger.cast_vote(poll_id, candidate_name, voter)->Ok_0;
            &&& next.cast_vote(poll_id, candidate_name, voter) == Err::<
                LedgerView,
                TransitionError,
            >(TransitionError::Program(ProgramError::DuplicateVoteAttempt))
            &&& next.candidate(poll_id, other_name) is Some ==> next.cast_vote(
                poll_id,
                other_name,
                voter,
            ) == Err::<LedgerView, TransitionError>(
                TransitionError::Program(ProgramError::DuplicateVoteAttempt),
            )
        }),
{
}

/// An identity that can vote in each of two different polls can vote in
/// both, one after the other, as long as its two participation records have
/// different addresses.
pub proof fn cast_vote_in_two_polls(
    ledger: LedgerView,
    voter: Seq<u8>,
    first_poll: u64,
    first_name: Seq<char>,
    second_poll: u64,
    second_name: Seq<char>,
)
    requires
        first_poll != second_poll,
        participation_address(ledger.program_id, first_poll, voter) != participation_address(
            ledger.program_id,
            second_poll,
            voter,
        ),
        ledger.cast_vote(first_poll, first_name, voter) is Ok,
        ledger.cast_vote(second_poll, second_name, voter) is Ok,
    ensures
        ledger.cast_vote(first_poll, first_name, voter)->Ok_0.cast_vote(
            second_poll,
            second_name,
            voter,
        ) is Ok,
{
}

/// The empty ledger is valid.
pub proof fn empty_is_valid(program_id: Seq<u8>)
    ensures
        LedgerView::empty(program_id).valid(),
{
}

/// Every transition keeps the ledger valid: each poll's start is not after
/// its end, descriptions and names fit, and every participation record
/// shows participation.
pub proof fn transitions_keep_validity(ledger: LedgerView, request: Transition)
    requires
        ledger.valid(),
        ledger.apply(request) is Ok,
    ensures
        ledger.apply(request)->Ok_0.valid(),
{
    let next = ledger.apply(request)->Ok_0;
    assert forall|address: Seq<u8>| #[trigger] next.occupied(address) implies next.accounts[address]
        .valid() by {
        if ledger.occupied(address) {
            assert(ledger.accounts[address].valid());
        }
    }
}

/// An account that exists is changed only by the transition that names it:
/// a poll counts one candidate more when a candidate is registered for it
/// and one vote more when a ballot is cast in it, a candidate counts one
/// vote more when a ballot is cast for it, and nothing else about them
/// changes. Creating a poll changes no account that exists.
pub proof fn transitions_change_only_their_accounts(
    ledger: LedgerView,
    request: Transition,
    address: Seq<u8>,
)
    requires
        ledger.apply(request) is Ok,
        ledger.occupied(address),
    ensures
        ({
            let next = ledger.apply(request)->Ok_0;
            let program_id = ledger.program_id;
            &&& ledger.poll_at(address) matches Some(poll) ==> next.poll_at(address) == Some(
                match request {
                    Transition::RegisterCandidate { poll_id, .. } if poll_address(
                        program_id,
                        poll_id,
                    ) == Some(address) => PollView {
                        candidate_amount: poll.candidate_amount + 1,
                        ..poll
                    },
                    Transition::CastVote { poll_id, .. } if poll_address(program_id, poll_id)
                        == Some(address) => PollView { total_votes: poll.total_votes + 1, ..poll },
                    _ => poll,
                },
            )
            &&& ledger.candidate_at(address) matches Some(candidate) ==> next.candidate_at(address)
                == Some(
                match request {
                    Transition::CastVote { poll_id, candidate_name, .. } if candidate_address(
                        program_id,
                        poll_id,
                        candidate_name,
                    ) == Some(address) => CandidateView {
                        candidate_votes: candidate.candidate_votes + 1,
                        ..candidate
                    },
                    _ => candidate,
                },
            )
        }),
{
}

/// No transition fails with a time-window error for voting: registration
/// and voting are open for as long as the poll exists.
pub proof fn voting_window_is_never_enforced(
    ledger: LedgerView,
    request: Transition,
    error: VotingError,
)
    ensures
        ledger.apply(request) != Err::<LedgerView, TransitionError>(
            TransitionError::Voting(error),
        ),
{
}

/// No transition removes an account or changes its kind or its program. A
/// poll keeps its id, window and description, and its counters never
/// decrease; a candidate keeps its name, and its votes never decrease; a
/// participation record that shows participation stays as it is.
pub proof fn transitions_keep_accounts(ledger: LedgerView, request: Transition, address: Seq<u8>)
    requires
        ledger.apply(request) is Ok,
        ledger.occupied(address),
    ensures
        ({
            let next = ledger.apply(request)->Ok_0;
            &&& next.program_id == ledger.program_id
            &&& next.occupied(address)
            &&& ledger.poll_at(address) matches Some(poll) ==> {
                &&& next.poll_at(address) is Some
                &&& next.poll_at(address)->Some_0.candidate_amount >= poll.candidate_amount
                &&& next.poll_at(address)->Some_0.total_votes >= poll.total_votes
                &&& next.poll_at(address)->Some_0 == PollView {
                    candidate_amount: next.poll_at(address)->Some_0.candidate_amount,
                    total_votes: next.poll_at(address)->Some_0.total_votes,
                    ..poll
                }
            }
            &&& ledger.candidate_at(address) matches Some(candidate) ==> {
                &&& next.candidate_at(address) is Some
                &&& next.candidate_at(address)->Some_0.candidate_votes >= candidate.candidate_votes
                &&& next.candidate_at(address)->Some_0.candidate_name == candidate.candidate_name
            }
            &&& ledger.participation_at(address) matches Some(record) ==> {
                &&& next.participation_at(address) is Some
                &&& record.has_participated ==> next.participation_at(address) == Some(record)
            }
        }),
{
}

} // verus!
