use vstd::prelude::*;

verus! {

/// The ways in which an operation on the ledger is rejected. A rejected
/// operation changes nothing.
#[derive(Debug, Clone, Copy, PartialEq, Eq, Structural)]
pub enum ErrorCode {
    /// A record already stands at the key that creation asked for.
    AlreadyExists,
    /// A name or description is longer than its bound.
    FieldTooLong,
    /// No poll is stored under the id, or the stored poll carries another id.
    PollNotFound,
    /// The candidate id is already registered in the poll.
    CandidateAlreadyExists,
    /// The candidate id is not registered in the poll, or the candidate
    /// record carries another id.
    CandidateNotFound,
    /// The vote came before the poll's start time.
    PollNotStarted,
    /// The poll was closed by hand.
    PollAlreadyEnded,
    /// The vote came after the poll's end time.
    PollEnded,
    /// The voter has already voted in this poll.
    AlreadyVoted,
    /// A vote count is at the largest value it can hold.
    VoteCountOverflow,
}

impl ErrorCode {
    /// The message of each error.
    pub open spec fn message_spec(&self) -> Seq<char> {
        match self {
            ErrorCode::AlreadyExists => "Record already exists"@,
            ErrorCode::FieldTooLong => "Field too long"@,
            ErrorCode::PollNotFound => "Poll not found"@,
            ErrorCode::CandidateAlreadyExists => "Candidate already exists"@,
            ErrorCode::CandidateNotFound => "Candidate not found"@,
            ErrorCode::PollNotStarted => "Poll not started"@,
            ErrorCode::PollAlreadyEnded => "Poll already ended"@,
            ErrorCode::PollEnded => "Poll ended"@,
            ErrorCode::AlreadyVoted => "User has already voted"@,
            ErrorCode::VoteCountOverflow => "Vote count overflow"@,
        }
    }

    /// The message that goes with the error.
    pub fn message(&self) -> (r: &'static str)
        ensures
            r@ == self.message_spec(),
    {
        match self {
            ErrorCode::AlreadyExists => "Record already exists",
            ErrorCode::FieldTooLong => "Field too long",
            ErrorCode::PollNotFound => "Poll not found",
            ErrorCode::CandidateAlreadyExists => "Candidate already exists",
            ErrorCode::CandidateNotFound => "Candidate not found",
            ErrorCode::PollNotStarted => "Poll not started",
            ErrorCode::PollAlreadyEnded => "Poll already ended",
            ErrorCode::PollEnded => "Poll ended",
            ErrorCode::AlreadyVoted => "User has already voted",
            ErrorCode::VoteCountOverflow => "Vote count overflow",
        }
    }
}

} // verus!
