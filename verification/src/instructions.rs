//! The three instruction handlers. Each works on the accounts that were
//! resolved for it and changes them only when it succeeds.

use crate::address::Address;
use crate::error::{ErrorCode, ProgramError, TransitionError};
use crate::state::{Candidate, CandidateView, ParticipationRecord, ParticipationView, Poll, PollView};
use anchor_lang::prelude::{Clock, SolanaSysvar};
use vstd::prelude::*;

verus! {

/// The accounts of a poll creation: who pays, and the poll account that was
/// allocated for the new poll.
#[derive(Debug, PartialEq, Eq)]
pub struct InitializePoll {
    pub signer: Address,
    pub poll: Poll,
}

/// The accounts of a candidate registration: who pays, the poll, and the
/// candidate account that was allocated for the new candidate.
#[derive(Debug, PartialEq, Eq)]
pub struct InitializeCandidate {
    pub signer: Address,
    pub poll: Poll,
    pub candidate: Candidate,
}

/// The accounts of a ballot: the voter, the poll with its address, the
/// candidate, and the voter's participation record for this poll.
#[derive(Debug, PartialEq, Eq)]
pub struct Vote {
    pub signer: Address,
    pub poll_key: Address,
    pub poll: Poll,
    pub candidate: Candidate,
    pub participation_record: ParticipationRecord,
}

/// The framework's error type, which carries a failure of the runtime.
#[verifier::external_type_specification]
#[verifier::external_body]
pub struct ExFrameworkError(anchor_lang::error::Error);

/// Calls `Clock::get` and keeps the clock's unix timestamp; a failure is
/// handed on as the framework's error. The contract claims nothing of the
/// reading: it is whatever the runtime reports, and the call fails where
/// the runtime offers no clock.
#[verifier::external_body]
fn clock_unix_timestamp() -> (reading: Result<i64, anchor_lang::error::Error>) {
    match Clock::get() {
        Ok(clock) => Ok(clock.unix_timestamp),
        Err(error) => Err(error.into()),
    }
}

/// A signed timestamp read as unsigned seconds: a negative one wraps around
/// to the far future.
pub open spec fn unix_seconds_of(timestamp: i64) -> nat {
    if timestamp >= 0 {
        timestamp as nat
    } else {
        (timestamp + 0x1_0000_0000_0000_0000) as nat
    }
}

/// Reads a signed timestamp as unsigned seconds.
pub fn unix_seconds(timestamp: i64) -> (seconds: u64)
    ensures
        seconds == unix_seconds_of(timestamp),
{
    if timestamp >= 0 {
        timestamp as u64
    } else {
        u64::MAX - ((-(timestamp + 1)) as u64)
    }
}

/// The verdict on a poll's time window at time `now`: the start must not be
/// after the end, and the end must be strictly after `now`.
pub open spec fn window_check(now: nat, poll_start: nat, poll_end: nat) -> Result<
    (),
    TransitionError,
> {
    if poll_start > poll_end {
        Err(TransitionError::Poll(ErrorCode::PollStartAfterEnd))
    } else if poll_end <= now {
        Err(TransitionError::Poll(ErrorCode::PollEndInPast))
    } else {
        Ok(())
    }
}

/// What a poll creation at time `now` does to its accounts.
pub open spec fn initialize_poll_effect(
    before: InitializePoll,
    after: InitializePoll,
    outcome: Result<(), TransitionError>,
    now: nat,
    poll_id: u64,
    description: Seq<char>,
    poll_start: nat,
    poll_end: nat,
) -> bool {
    &&& outcome == window_check(now, poll_start, poll_end)
    &&& match outcome {
        Ok(_) => {
            &&& after.signer == before.signer
            &&& after.poll@ == PollView::fresh(poll_id, description, poll_start, poll_end)
        },
        Err(_) => after == before,
    }
}

/// Creates the poll at the time that the runtime's clock shows. Where the
/// clock cannot be read the poll account is left as it was; otherwise the
/// poll is created as `initialize_poll_at` creates it at the clock's time.
pub fn initialize_poll(
    ctx: &mut InitializePoll,
    poll_id: u64,
    description: String,
    poll_start: u64,
    poll_end: u64,
) -> (outcome: Result<(), TransitionError>)
    ensures
        outcome == Err::<(), TransitionError>(TransitionError::ClockUnavailable) ==> *final(ctx)
            == *old(ctx),
        outcome != Err::<(), TransitionError>(TransitionError::ClockUnavailable) ==> exists|
            timestamp: i64,
        |
            initialize_poll_effect(
                *old(ctx),
                *final(ctx),
                outcome,
                #[trigger] unix_seconds_of(timestamp),
                poll_id,
                description@,
                poll_start as nat,
                poll_end as nat,
            ),
{
    match clock_unix_timestamp() {
        Ok(timestamp) => {
            let now: u64 = unix_seconds(timestamp);
            initialize_poll_at(ctx, now, poll_id, description, poll_start, poll_end)
        },
        Err(_) => Err(TransitionError::ClockUnavailable),
    }
}

/// Creates the poll at time `now`. Fails with `PollStartAfterEnd` if the
/// start is after the end, else with `PollEndInPast` if the end is not
/// strictly after `now`; on success the poll account holds the given fields
/// and counts no candidates and no votes.
pub fn initialize_poll_at(
    ctx: &mut InitializePoll,
    now: u64,
    poll_id: u64,
    description: String,
    poll_start: u64,
    poll_end: u64,
) -> (outcome: Result<(), TransitionError>)
    ensures
        initialize_poll_effect(
            *old(ctx),
            *final(ctx),
            outcome,
            now as nat,
            poll_id,
            description@,
            poll_start as nat,
            poll_end as nat,
        ),
{
    if poll_start > poll_end {
        return Err(TransitionError::Poll(ErrorCode::PollStartAfterEnd));
    }
    if poll_end <= now {
        return Err(TransitionError::Poll(ErrorCode::PollEndInPast));
    }
    ctx.poll.poll_id = poll_id;
    ctx.poll.description = description;
    ctx.poll.poll_start = poll_start;
    ctx.poll.poll_end = poll_end;
    ctx.poll.candidate_amount = 0;
    ctx.poll.total_votes = 0;
    Ok(())
}

/// Registers the candidate: the candidate account gets the name and no
/// votes, and the poll counts one candidate more. It never fails.
pub fn initialize_candidate(
    ctx: &mut InitializeCandidate,
    candidate_name: String,
    _poll_id: u64,
) -> (outcome: Result<(), TransitionError>)
    requires
        old(ctx).poll.candidate_amount < u64::MAX,
    ensures
        outcome is Ok,
        final(ctx).signer == old(ctx).signer,
        final(ctx).poll@ == (PollView {
            candidate_amount: old(ctx).poll@.candidate_amount + 1,
            ..old(ctx).poll@
        }),
        final(ctx).candidate@ == CandidateView::fresh(candidate_name@),
{
    ctx.poll.candidate_amount += 1;
    ctx.candidate.candidate_name = candidate_name;
    ctx.candidate.candidate_votes = 0;
    Ok(())
}

/// What a ballot does to its accounts: refused as a duplicate where the
/// record shows participation, else the record is set, with the poll's
/// address as its reference, and candidate and poll count one vote more.
pub open spec fn vote_effect(before: Vote, after: Vote, outcome: Result<(), TransitionError>) -> bool {
    if before.participation_record.has_participated {
        &&& outcome == Err::<(), TransitionError>(
            TransitionError::Program(ProgramError::DuplicateVoteAttempt),
        )
        &&& after == before
    } else {
        &&& outcome is Ok
        &&& after.signer == before.signer
        &&& after.poll_key == before.poll_key
        &&& after.participation_record@ == (ParticipationView {
            has_participated: true,
            poll_reference: before.poll_key@,
        })
        &&& after.candidate@ == (CandidateView {
            candidate_votes: before.candidate@.candidate_votes + 1,
            ..before.candidate@
        })
        &&& after.poll@ == (PollView {
            total_votes: before.poll@.total_votes + 1,
            ..before.poll@
        })
    }
}

/// Records the signer's ballot for the candidate, once. The counters of a
/// voter who has not voted yet must have room for one more vote.
pub fn vote(ctx: &mut Vote, _candidate_name: String, _poll_id: u64) -> (outcome: Result<
    (),
    TransitionError,
>)
    requires
        !old(ctx).participation_record.has_participated ==> old(ctx).candidate.candidate_votes
            < u64::MAX && old(ctx).poll.total_votes < u64::MAX,
    ensures
        vote_effect(*old(ctx), *final(ctx), outcome),
{
    if ctx.participation_record.has_participated {
        return Err(TransitionError::Program(ProgramError::DuplicateVoteAttempt));
    }
    ctx.participation_record.has_participated = true;
    ctx.participation_record.poll_reference = ctx.poll_key;
    ctx.candidate.candidate_votes += 1;
    ctx.poll.total_votes += 1;
    Ok(())
}

} // verus!
