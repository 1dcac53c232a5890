use voting::{
    derive_poll_address, Address, Candidate, ErrorCode, Ledger, ParticipationRecord, Poll,
    ProgramError, TransitionError,
};

const NOW: u64 = 1_700_000_000;

fn program() -> Address {
    Address::new([
        9, 43, 225, 230, 237, 13, 216, 237, 44, 121, 170, 202, 171, 13, 123, 122, 17, 76, 28, 165,
        22, 109, 84, 97, 252, 22, 20, 59, 1, 116, 88, 174,
    ])
}

fn payer() -> Address {
    Address::new([1u8; 32])
}

fn voter_x() -> Address {
    Address::new([0x58u8; 32])
}

fn voter_y() -> Address {
    Address::new([0x59u8; 32])
}

fn ledger_with_poll(poll_id: u64) -> Ledger {
    let mut ledger = Ledger::new(program());
    assert_eq!(
        ledger.create_poll(payer(), NOW, poll_id, String::from("Pres"), 0, 9_999_999_999),
        Ok(())
    );
    ledger
}

fn candidate(name: &str, votes: u64) -> Option<Candidate> {
    Some(Candidate { candidate_name: String::from(name), candidate_votes: votes })
}

fn poll(poll_id: u64, candidates: u64, votes: u64) -> Option<Poll> {
    Some(Poll {
        poll_id,
        description: String::from("Pres"),
        poll_start: 0,
        poll_end: 9_999_999_999,
        candidate_amount: candidates,
        total_votes: votes,
    })
}

#[test]
fn new_ledger_is_empty() {
    let ledger = Ledger::new(program());
    assert_eq!(ledger.program_id(), program());
    assert_eq!(ledger.poll(1), None);
    assert_eq!(ledger.candidate(1, "Alice"), None);
    assert_eq!(ledger.participation(1, &voter_x()), None);
}

#[test]
fn create_poll_starts_with_no_candidates_and_no_votes() {
    let mut ledger = Ledger::new(program());
    let outcome = ledger.create_poll(payer(), 1_000, 5, String::from("Budget"), 2_000, 3_000);
    assert_eq!(outcome, Ok(()));
    assert_eq!(
        ledger.poll(5),
        Some(Poll {
            poll_id: 5,
            description: String::from("Budget"),
            poll_start: 2_000,
            poll_end: 3_000,
            candidate_amount: 0,
            total_votes: 0,
        })
    );
    assert_eq!(ledger.poll(4), None);
}

#[test]
fn create_poll_with_start_after_end_fails() {
    let mut ledger = Ledger::new(program());
    let outcome = ledger.create_poll(payer(), 10, 1, String::from("Pres"), 100, 50);
    assert_eq!(outcome, Err(TransitionError::Poll(ErrorCode::PollStartAfterEnd)));
    assert_eq!(ledger.poll(1), None);
}

#[test]
fn create_poll_with_end_in_the_past_fails() {
    let mut ledger = Ledger::new(program());
    let outcome = ledger.create_poll(payer(), NOW, 1, String::from("Pres"), 0, NOW - 1);
    assert_eq!(outcome, Err(TransitionError::Poll(ErrorCode::PollEndInPast)));
    assert_eq!(ledger.poll(1), None);
}

#[test]
fn create_poll_with_end_at_the_current_time_fails() {
    let mut ledger = Ledger::new(program());
    let outcome = ledger.create_poll(payer(), NOW, 1, String::from("Pres"), 0, NOW);
    assert_eq!(outcome, Err(TransitionError::Poll(ErrorCode::PollEndInPast)));
}

#[test]
fn create_poll_twice_fails_and_keeps_the_first() {
    let mut ledger = ledger_with_poll(1);
    let outcome = ledger.create_poll(payer(), NOW, 1, String::from("Other"), 5, NOW + 5);
    assert_eq!(outcome, Err(TransitionError::AccountInUse));
    assert_eq!(ledger.poll(1), poll(1, 0, 0));
}

#[test]
fn create_poll_validates_the_window_before_it_allocates() {
    let mut ledger = ledger_with_poll(1);
    let outcome = ledger.create_poll(payer(), NOW, 1, String::from("Other"), 100, 50);
    assert_eq!(outcome, Err(TransitionError::Poll(ErrorCode::PollStartAfterEnd)));
    let outcome = ledger.create_poll(payer(), NOW, 1, String::from("Other"), 0, 50);
    assert_eq!(outcome, Err(TransitionError::Poll(ErrorCode::PollEndInPast)));
}

#[test]
fn create_poll_with_a_description_of_200_bytes_succeeds() {
    let mut ledger = Ledger::new(program());
    let description = "d".repeat(200);
    assert_eq!(ledger.create_poll(payer(), NOW, 1, description.clone(), 0, NOW + 1), Ok(()));
    assert_eq!(ledger.poll(1).unwrap().description, description);
}

#[test]
fn create_poll_with_a_description_of_201_bytes_fails() {
    let mut ledger = Ledger::new(program());
    let outcome = ledger.create_poll(payer(), NOW, 1, "d".repeat(201), 0, NOW + 1);
    assert_eq!(outcome, Err(TransitionError::AccountDidNotSerialize));
    assert_eq!(ledger.poll(1), None);
}

#[test]
fn polls_with_different_ids_live_side_by_side() {
    let mut ledger = ledger_with_poll(1);
    assert_eq!(ledger.create_poll(payer(), NOW, 2, String::from("Pres"), 0, 9_999_999_999), Ok(()));
    assert_eq!(ledger.register_candidate(payer(), 2, String::from("Alice")), Ok(()));
    assert_eq!(ledger.poll(1), poll(1, 0, 0));
    assert_eq!(ledger.poll(2), poll(2, 1, 0));
}

#[test]
fn register_candidate_on_a_missing_poll_fails() {
    let mut ledger = ledger_with_poll(1);
    let outcome = ledger.register_candidate(payer(), 2, String::from("Alice"));
    assert_eq!(outcome, Err(TransitionError::AccountNotFound));
    assert_eq!(ledger.candidate(2, "Alice"), None);
    assert_eq!(ledger.poll(1), poll(1, 0, 0));
}

#[test]
fn register_candidate_on_an_empty_ledger_fails() {
    let mut ledger = Ledger::new(program());
    let outcome = ledger.register_candidate(payer(), 1, String::from("Alice"));
    assert_eq!(outcome, Err(TransitionError::AccountNotFound));
}

#[test]
fn register_candidate_counts_the_candidate() {
    let mut ledger = ledger_with_poll(1);
    assert_eq!(ledger.register_candidate(payer(), 1, String::from("Alice")), Ok(()));
    assert_eq!(ledger.candidate(1, "Alice"), candidate("Alice", 0));
    assert_eq!(ledger.poll(1), poll(1, 1, 0));
    assert_eq!(ledger.candidate(1, "Bob"), None);
}

#[test]
fn register_candidate_twice_fails_and_counts_once() {
    let mut ledger = ledger_with_poll(1);
    assert_eq!(ledger.register_candidate(payer(), 1, String::from("Alice")), Ok(()));
    let outcome = ledger.register_candidate(payer(), 1, String::from("Alice"));
    assert_eq!(outcome, Err(TransitionError::AccountInUse));
    assert_eq!(ledger.poll(1), poll(1, 1, 0));
    assert_eq!(ledger.candidate(1, "Alice"), candidate("Alice", 0));
}

#[test]
fn register_candidate_twice_keeps_the_votes() {
    let mut ledger = ledger_with_poll(1);
    assert_eq!(ledger.register_candidate(payer(), 1, String::from("Alice")), Ok(()));
    assert_eq!(ledger.cast_vote(voter_x(), 1, String::from("Alice")), Ok(()));
    let outcome = ledger.register_candidate(payer(), 1, String::from("Alice"));
    assert_eq!(outcome, Err(TransitionError::AccountInUse));
    assert_eq!(ledger.candidate(1, "Alice"), candidate("Alice", 1));
    assert_eq!(ledger.poll(1), poll(1, 1, 1));
}

#[test]
fn the_same_name_may_be_registered_in_two_polls() {
    let mut ledger = ledger_with_poll(1);
    assert_eq!(ledger.create_poll(payer(), NOW, 2, String::from("Pres"), 0, 9_999_999_999), Ok(()));
    assert_eq!(ledger.register_candidate(payer(), 1, String::from("Alice")), Ok(()));
    assert_eq!(ledger.register_candidate(payer(), 2, String::from("Alice")), Ok(()));
    assert_eq!(ledger.poll(1), poll(1, 1, 0));
    assert_eq!(ledger.poll(2), poll(2, 1, 0));
}

#[test]
fn register_candidate_with_a_name_of_32_bytes_succeeds() {
    let mut ledger = ledger_with_poll(1);
    let name = "n".repeat(32);
    assert_eq!(ledger.register_candidate(payer(), 1, name.clone()), Ok(()));
    assert_eq!(ledger.candidate(1, &name), candidate(&name, 0));
}

#[test]
fn register_candidate_with_a_name_of_33_bytes_fails() {
    let mut ledger = ledger_with_poll(1);
    let name = "n".repeat(33);
    let outcome = ledger.register_candidate(payer(), 1, name.clone());
    assert_eq!(outcome, Err(TransitionError::InvalidSeeds));
    assert_eq!(ledger.poll(1), poll(1, 0, 0));
    assert_eq!(ledger.candidate(1, &name), None);
}

#[test]
fn register_candidate_is_open_outside_the_window() {
    let mut ledger = Ledger::new(program());
    assert_eq!(ledger.create_poll(payer(), 10, 1, String::from("Pres"), 100, 200), Ok(()));
    assert_eq!(ledger.register_candidate(payer(), 1, String::from("Alice")), Ok(()));
}

#[test]
fn cast_vote_by_a_fresh_identity_counts_one_vote() {
    let mut ledger = ledger_with_poll(1);
    assert_eq!(ledger.register_candidate(payer(), 1, String::from("Alice")), Ok(()));
    assert_eq!(ledger.participation(1, &voter_x()), None);
    assert_eq!(ledger.cast_vote(voter_x(), 1, String::from("Alice")), Ok(()));
    assert_eq!(ledger.candidate(1, "Alice"), candidate("Alice", 1));
    assert_eq!(ledger.poll(1), poll(1, 1, 1));
    assert_eq!(
        ledger.participation(1, &voter_x()),
        Some(ParticipationRecord {
            has_participated: true,
            poll_reference: derive_poll_address(&program(), 1).unwrap(),
        })
    );
    assert_eq!(ledger.participation(1, &voter_y()), None);
}

#[test]
fn cast_vote_twice_fails_and_changes_no_tally() {
    let mut ledger = ledger_with_poll(1);
    assert_eq!(ledger.register_candidate(payer(), 1, String::from("Alice")), Ok(()));
    assert_eq!(ledger.cast_vote(voter_x(), 1, String::from("Alice")), Ok(()));
    let outcome = ledger.cast_vote(voter_x(), 1, String::from("Alice"));
    assert_eq!(outcome, Err(TransitionError::Program(ProgramError::DuplicateVoteAttempt)));
    assert_eq!(ledger.candidate(1, "Alice"), candidate("Alice", 1));
    assert_eq!(ledger.poll(1), poll(1, 1, 1));
}

#[test]
fn cast_vote_twice_for_another_candidate_fails() {
    let mut ledger = ledger_with_poll(1);
    assert_eq!(ledger.register_candidate(payer(), 1, String::from("Alice")), Ok(()));
    assert_eq!(ledger.register_candidate(payer(), 1, String::from("Bob")), Ok(()));
    assert_eq!(ledger.cast_vote(voter_x(), 1, String::from("Alice")), Ok(()));
    let outcome = ledger.cast_vote(voter_x(), 1, String::from("Bob"));
    assert_eq!(outcome, Err(TransitionError::Program(ProgramError::DuplicateVoteAttempt)));
    assert_eq!(ledger.candidate(1, "Alice"), candidate("Alice", 1));
    assert_eq!(ledger.candidate(1, "Bob"), candidate("Bob", 0));
    assert_eq!(ledger.poll(1), poll(1, 2, 1));
}

#[test]
fn cast_vote_in_two_polls_succeeds_in_both() {
    let mut ledger = ledger_with_poll(1);
    assert_eq!(ledger.create_poll(payer(), NOW, 2, String::from("Pres"), 0, 9_999_999_999), Ok(()));
    assert_eq!(ledger.register_candidate(payer(), 1, String::from("Alice")), Ok(()));
    assert_eq!(ledger.register_candidate(payer(), 2, String::from("Alice")), Ok(()));
    assert_eq!(ledger.cast_vote(voter_x(), 1, String::from("Alice")), Ok(()));
    assert_eq!(ledger.cast_vote(voter_x(), 2, String::from("Alice")), Ok(()));
    assert_eq!(ledger.candidate(1, "Alice"), candidate("Alice", 1));
    assert_eq!(ledger.candidate(2, "Alice"), candidate("Alice", 1));
    assert_eq!(ledger.poll(1), poll(1, 1, 1));
    assert_eq!(ledger.poll(2), poll(2, 1, 1));
    assert_eq!(
        ledger.participation(2, &voter_x()).unwrap().poll_reference,
        derive_poll_address(&program(), 2).unwrap()
    );
}

#[test]
fn cast_vote_on_a_missing_poll_fails() {
    let mut ledger = ledger_with_poll(1);
    assert_eq!(ledger.register_candidate(payer(), 1, String::from("Alice")), Ok(()));
    let outcome = ledger.cast_vote(voter_x(), 2, String::from("Alice"));
    assert_eq!(outcome, Err(TransitionError::AccountNotFound));
    assert_eq!(ledger.participation(2, &voter_x()), None);
}

#[test]
fn cast_vote_for_a_missing_candidate_fails_and_leaves_the_voter_free() {
    let mut ledger = ledger_with_poll(1);
    assert_eq!(ledger.register_candidate(payer(), 1, String::from("Alice")), Ok(()));
    let outcome = ledger.cast_vote(voter_x(), 1, String::from("Bob"));
    assert_eq!(outcome, Err(TransitionError::AccountNotFound));
    assert_eq!(ledger.participation(1, &voter_x()), None);
    assert_eq!(ledger.poll(1), poll(1, 1, 0));
    assert_eq!(ledger.cast_vote(voter_x(), 1, String::from("Alice")), Ok(()));
}

#[test]
fn cast_vote_for_a_candidate_of_another_poll_fails() {
    let mut ledger = ledger_with_poll(1);
    assert_eq!(ledger.create_poll(payer(), NOW, 2, String::from("Pres"), 0, 9_999_999_999), Ok(()));
    assert_eq!(ledger.register_candidate(payer(), 1, String::from("Alice")), Ok(()));
    let outcome = ledger.cast_vote(voter_x(), 2, String::from("Alice"));
    assert_eq!(outcome, Err(TransitionError::AccountNotFound));
}

#[test]
fn cast_vote_for_a_name_longer_than_a_seed_fails() {
    let mut ledger = ledger_with_poll(1);
    let outcome = ledger.cast_vote(voter_x(), 1, "n".repeat(33));
    assert_eq!(outcome, Err(TransitionError::AccountNotFound));
}

#[test]
fn cast_vote_is_open_outside_the_window() {
    let mut ledger = Ledger::new(program());
    assert_eq!(ledger.create_poll(payer(), 10, 1, String::from("Pres"), 100, 200), Ok(()));
    assert_eq!(ledger.register_candidate(payer(), 1, String::from("Alice")), Ok(()));
    assert_eq!(ledger.cast_vote(voter_x(), 1, String::from("Alice")), Ok(()));
}

#[test]
fn a_voter_whose_bytes_spell_a_candidate_cannot_vote() {
    let mut ledger = ledger_with_poll(1);
    assert_eq!(ledger.register_candidate(payer(), 1, String::from("Alice")), Ok(()));
    assert_eq!(ledger.register_candidate(payer(), 1, "X".repeat(32)), Ok(()));
    let outcome = ledger.cast_vote(voter_x(), 1, String::from("Alice"));
    assert_eq!(outcome, Err(TransitionError::AccountInUse));
    assert_eq!(ledger.candidate(1, "Alice"), candidate("Alice", 0));
    assert_eq!(ledger.poll(1), poll(1, 2, 0));
    assert_eq!(ledger.participation(1, &voter_x()), None);
}

#[test]
fn a_candidate_whose_name_spells_a_voter_cannot_register() {
    let mut ledger = ledger_with_poll(1);
    assert_eq!(ledger.register_candidate(payer(), 1, String::from("Alice")), Ok(()));
    assert_eq!(ledger.cast_vote(voter_x(), 1, String::from("Alice")), Ok(()));
    let outcome = ledger.register_candidate(payer(), 1, "X".repeat(32));
    assert_eq!(outcome, Err(TransitionError::AccountInUse));
    assert_eq!(ledger.candidate(1, &"X".repeat(32)), None);
    assert_eq!(ledger.poll(1), poll(1, 1, 1));
}

#[test]
fn end_to_end() {
    let mut ledger = Ledger::new(program());
    assert_eq!(ledger.create_poll(payer(), NOW, 1, String::from("Pres"), 0, 9_999_999_999), Ok(()));
    assert_eq!(ledger.register_candidate(payer(), 1, String::from("Alice")), Ok(()));
    assert_eq!(ledger.register_candidate(payer(), 1, String::from("Bob")), Ok(()));
    assert_eq!(ledger.cast_vote(voter_x(), 1, String::from("Alice")), Ok(()));
    assert_eq!(ledger.cast_vote(voter_y(), 1, String::from("Bob")), Ok(()));
    assert_eq!(
        ledger.cast_vote(voter_x(), 1, String::from("Alice")),
        Err(TransitionError::Program(ProgramError::DuplicateVoteAttempt))
    );
    assert_eq!(ledger.candidate(1, "Alice").unwrap().candidate_votes, 1);
    assert_eq!(ledger.candidate(1, "Bob").unwrap().candidate_votes, 1);
    assert_eq!(ledger.poll(1).unwrap().total_votes, 2);
    assert_eq!(ledger.poll(1).unwrap().candidate_amount, 2);
}

#[test]
fn many_voters_are_counted_one_by_one() {
    let mut ledger = ledger_with_poll(1);
    assert_eq!(ledger.register_candidate(payer(), 1, String::from("Alice")), Ok(()));
    assert_eq!(ledger.register_candidate(payer(), 1, String::from("Bob")), Ok(()));
    for i in 0..20u8 {
        let mut raw = [0u8; 32];
        raw[0] = i;
        raw[31] = 200;
        let name = if i % 4 == 0 { "Bob" } else { "Alice" };
        assert_eq!(ledger.cast_vote(Address::new(raw), 1, String::from(name)), Ok(()));
    }
    assert_eq!(ledger.candidate(1, "Alice"), candidate("Alice", 15));
    assert_eq!(ledger.candidate(1, "Bob"), candidate("Bob", 5));
    assert_eq!(ledger.poll(1), poll(1, 2, 20));
}
