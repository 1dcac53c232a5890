//! The three persistent entities and their mathematical views.

use crate::address::Address;
use vstd::prelude::*;
use vstd::utf8::encode_utf8;

verus! {

/// Most bytes that a poll's description may take.
pub const MAX_DESCRIPTION_LEN: usize = 200;

/// Most bytes that a candidate's name may take.
pub const MAX_CANDIDATE_NAME_LEN: usize = 32;

/// A voting event: its time window, its description and its tallies.
#[derive(Debug, PartialEq, Eq)]
pub struct Poll {
    pub poll_id: u64,
    pub description: String,
    pub poll_start: u64,
    pub poll_end: u64,
    pub candidate_amount: u64,
    pub total_votes: u64,
}

/// An option within a poll, with its own vote counter.
#[derive(Debug, PartialEq, Eq)]
pub struct Candidate {
    pub candidate_name: String,
    pub candidate_votes: u64,
}

/// The marker, one per poll and identity, that prevents a second ballot.
#[derive(Clone, Copy, Debug, PartialEq, Eq)]
pub struct ParticipationRecord {
    pub has_participated: bool,
    pub poll_reference: Address,
}

/// What a `Poll` holds, as mathematical values. Times are unix seconds.
pub struct PollView {
    pub poll_id: u64,
    pub description: Seq<char>,
    pub poll_start: nat,
    pub poll_end: nat,
    pub candidate_amount: nat,
    pub total_votes: nat,
}

/// What a `Candidate` holds, as mathematical values.
pub struct CandidateView {
    pub candidate_name: Seq<char>,
    pub candidate_votes: nat,
}

/// What a `ParticipationRecord` holds, as mathematical values.
pub struct ParticipationView {
    pub has_participated: bool,
    pub poll_reference: Seq<u8>,
}

impl View for Poll {
    type V = PollView;

    open spec fn view(&self) -> PollView {
        PollView {
            poll_id: self.poll_id,
            description: self.description@,
            poll_start: self.poll_start as nat,
            poll_end: self.poll_end as nat,
            candidate_amount: self.candidate_amount as nat,
            total_votes: self.total_votes as nat,
        }
    }
}

impl View for Candidate {
    type V = CandidateView;

    open spec fn view(&self) -> CandidateView {
        CandidateView {
            candidate_name: self.candidate_name@,
            candidate_votes: self.candidate_votes as nat,
        }
    }
}

impl View for ParticipationRecord {
    type V = ParticipationView;

    open spec fn view(&self) -> ParticipationView {
        ParticipationView {
            has_participated: self.has_participated,
            poll_reference: self.poll_reference@,
        }
    }
}

impl PollView {
    /// A poll as it is right after its creation: no candidates, no votes.
    pub open spec fn fresh(
        poll_id: u64,
        description: Seq<char>,
        poll_start: nat,
        poll_end: nat,
    ) -> PollView {
        PollView { poll_id, description, poll_start, poll_end, candidate_amount: 0, total_votes: 0 }
    }

    /// The description fits the space that a poll account has for it.
    pub open spec fn fits(self) -> bool {
        encode_utf8(self.description).len() <= MAX_DESCRIPTION_LEN
    }

    /// The window is not empty backwards and the description fits.
    pub open spec fn valid(self) -> bool {
        self.poll_start <= self.poll_end && self.fits()
    }
}

impl CandidateView {
    /// A candidate as it is right after its registration.
    pub open spec fn fresh(candidate_name: Seq<char>) -> CandidateView {
        CandidateView { candidate_name, candidate_votes: 0 }
    }

    /// The name fits the space that a candidate account has for it.
    pub open spec fn fits(self) -> bool {
        encode_utf8(self.candidate_name).len() <= MAX_CANDIDATE_NAME_LEN
    }
}

impl ParticipationView {
    /// The record of an identity that has not voted: the all-zero reference.
    pub open spec fn blank() -> ParticipationView {
        ParticipationView { has_participated: false, poll_reference: Seq::new(32, |i: int| 0u8) }
    }
}

impl Clone for Poll {
    fn clone(&self) -> (copy: Poll)
        ensures
            copy == *self,
    {
        Poll {
            poll_id: self.poll_id,
            description: self.description.clone(),
            poll_start: self.poll_start,
            poll_end: self.poll_end,
            candidate_amount: self.candidate_amount,
            total_votes: self.total_votes,
        }
    }
}

impl Clone for Candidate {
    fn clone(&self) -> (copy: Candidate)
        ensures
            copy == *self,
    {
        Candidate {
            candidate_name: self.candidate_name.clone(),
            candidate_votes: self.candidate_votes,
        }
    }
}

impl Default for Poll {
    /// The contents of a poll account that was allocated and not yet written.
    fn default() -> (poll: Poll)
        ensures
            poll@ == PollView::fresh(0, Seq::<char>::empty(), 0, 0),
    {
        Poll {
            poll_id: 0,
            description: String::new(),
            poll_start: 0,
            poll_end: 0,
            candidate_amount: 0,
            total_votes: 0,
        }
    }
}

impl Default for Candidate {
    /// The contents of a candidate account that was allocated and not yet
    /// written.
    fn default() -> (candidate: Candidate)
        ensures
            candidate@ == CandidateView::fresh(Seq::<char>::empty()),
    {
        Candidate { candidate_name: String::new(), candidate_votes: 0 }
    }
}

impl Default for ParticipationRecord {
    /// The record of an identity that has not voted.
    fn default() -> (record: ParticipationRecord)
        ensures
            record@ == ParticipationView::blank(),
    {
        let record = ParticipationRecord {
            has_participated: false,
            poll_reference: Address::new([0u8; 32]),
        };
        assert(record.poll_reference@ =~= Seq::new(32, |i: int| 0u8));
        record
    }
}

impl Poll {
    /// Whether the description fits the space that a poll account has for it.
    pub fn fits(&self) -> (fits: bool)
        ensures
            fits == self@.fits(),
    {
        self.description.as_str().as_bytes().len() <= MAX_DESCRIPTION_LEN
    }
}

} // verus!
