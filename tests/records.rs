use voting::error::ErrorCode;
use voting::records::{
    Candidate, VoterKey, fields_within_bounds, initialize_candidate, initialize_poll, vote,
};

fn s(text: &str) -> String {
    text.to_string()
}

fn candidate(id: u64, votes: u64) -> Candidate {
    Candidate {
        candidate_id: id,
        candidate_name: s("A"),
        candidate_description: s("a"),
        candidate_votes: votes,
    }
}

#[test]
fn initialize_poll_sets_fields() {
    let p = initialize_poll(3, s("Name"), s("Desc"), 5, 9).unwrap();
    assert_eq!(p.poll_id, 3);
    assert_eq!(p.poll_name, "Name");
    assert_eq!(p.poll_description, "Desc");
    assert_eq!((p.poll_start_time, p.poll_end_time), (5, 9));
    assert!(!p.poll_is_finished);
    assert_eq!(p.total_votes, 0);
    assert!(p.candidates.is_empty());
    assert!(matches!(
        initialize_poll(3, "x".repeat(33), s(""), 5, 9),
        Err(ErrorCode::FieldTooLong)
    ));
}

#[test]
fn initialize_candidate_checks_poll_id() {
    let mut p = initialize_poll(3, s("P"), s("d"), 5, 9).unwrap();
    let r = initialize_candidate(&mut p, 4, 1, s("A"), s("a"));
    assert!(matches!(r, Err(ErrorCode::PollNotFound)));
    assert!(p.candidates.is_empty());
    let c = initialize_candidate(&mut p, 3, 1, s("A"), s("a")).unwrap();
    assert_eq!(c.candidate_id, 1);
    assert_eq!(c.candidate_votes, 0);
    assert_eq!(p.candidates, vec![1]);
    let r = initialize_candidate(&mut p, 3, 1, s("B"), s("b"));
    assert!(matches!(r, Err(ErrorCode::CandidateAlreadyExists)));
    assert_eq!(p.candidates, vec![1]);
}

#[test]
fn vote_counts_once() {
    let mut p = initialize_poll(3, s("P"), s("d"), 5, 9).unwrap();
    let mut c = initialize_candidate(&mut p, 3, 1, s("A"), s("a")).unwrap();
    assert_eq!(vote(&mut p, &mut c, 3, 1, false, 7), Ok(()));
    assert_eq!((p.total_votes, c.candidate_votes), (1, 1));
    assert_eq!(vote(&mut p, &mut c, 3, 1, true, 7), Err(ErrorCode::AlreadyVoted));
    assert_eq!((p.total_votes, c.candidate_votes), (1, 1));
}

#[test]
fn vote_checks_record_ids() {
    let mut p = initialize_poll(3, s("P"), s("d"), 5, 9).unwrap();
    initialize_candidate(&mut p, 3, 1, s("A"), s("a")).unwrap();
    let mut wrong = candidate(2, 0);
    assert_eq!(vote(&mut p, &mut wrong, 4, 1, false, 7), Err(ErrorCode::PollNotFound));
    assert_eq!(vote(&mut p, &mut wrong, 3, 1, false, 7), Err(ErrorCode::CandidateNotFound));
    assert_eq!((p.total_votes, wrong.candidate_votes), (0, 0));
}

#[test]
fn vote_window_and_finished() {
    let mut p = initialize_poll(3, s("P"), s("d"), 5, 9).unwrap();
    let mut c = initialize_candidate(&mut p, 3, 1, s("A"), s("a")).unwrap();
    assert_eq!(vote(&mut p, &mut c, 3, 1, false, 4), Err(ErrorCode::PollNotStarted));
    assert_eq!(vote(&mut p, &mut c, 3, 1, false, 10), Err(ErrorCode::PollEnded));
    p.finish();
    assert_eq!(vote(&mut p, &mut c, 3, 1, false, 7), Err(ErrorCode::PollAlreadyEnded));
    assert_eq!((p.total_votes, c.candidate_votes), (0, 0));
}

#[test]
fn vote_count_overflow_rejected() {
    let mut p = initialize_poll(3, s("P"), s("d"), 5, 9).unwrap();
    let mut c = initialize_candidate(&mut p, 3, 1, s("A"), s("a")).unwrap();
    p.total_votes = u64::MAX;
    assert_eq!(vote(&mut p, &mut c, 3, 1, false, 7), Err(ErrorCode::VoteCountOverflow));
    p.total_votes = 5;
    c.candidate_votes = u64::MAX;
    assert_eq!(vote(&mut p, &mut c, 3, 1, false, 7), Err(ErrorCode::VoteCountOverflow));
    assert_eq!((p.total_votes, c.candidate_votes), (5, u64::MAX));
}

#[test]
fn fields_bounds_count_characters() {
    assert!(fields_within_bounds(&"x".repeat(32), &"y".repeat(256)));
    assert!(!fields_within_bounds(&"x".repeat(33), &s("")));
    assert!(!fields_within_bounds(&s(""), &"y".repeat(257)));
    assert!(fields_within_bounds(&"ü".repeat(32), &"ß".repeat(256)));
}

#[test]
fn voter_keys_compare_by_bytes() {
    let a = VoterKey::new([1u8; 32]);
    let mut bytes = [1u8; 32];
    assert!(a.same_as(&VoterKey::new(bytes)));
    bytes[31] = 2;
    assert!(!a.same_as(&VoterKey::new(bytes)));
    bytes[31] = 1;
    bytes[0] = 0;
    assert!(!a.same_as(&VoterKey::new(bytes)));
}

#[test]
fn error_messages() {
    assert_eq!(ErrorCode::PollNotFound.message(), "Poll not found");
    assert_eq!(ErrorCode::CandidateAlreadyExists.message(), "Candidate already exists");
    assert_eq!(ErrorCode::CandidateNotFound.message(), "Candidate not found");
    assert_eq!(ErrorCode::PollNotStarted.message(), "Poll not started");
    assert_eq!(ErrorCode::PollAlreadyEnded.message(), "Poll already ended");
    assert_eq!(ErrorCode::PollEnded.message(), "Poll ended");
    assert_eq!(ErrorCode::AlreadyVoted.message(), "User has already voted");
}
