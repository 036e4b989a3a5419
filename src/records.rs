//! The two records of the ledger, a poll and a candidate, and the handlers
//! that create and change them once their storage has been resolved.

use vstd::prelude::*;
use vstd::string::*;

use crate::error::ErrorCode;

verus! {

/// The longest name of a poll or a candidate, in characters.
pub const MAX_NAME_LEN: usize = 32;

/// The longest description of a poll or a candidate, in characters.
pub const MAX_DESCRIPTION_LEN: usize = 256;

/// The number of bytes in a voter's key.
pub const KEY_LEN: usize = 32;

/// A name and a description fit in their bounds.
pub open spec fn fields_fit(name: Seq<char>, description: Seq<char>) -> bool {
    name.len() <= MAX_NAME_LEN && description.len() <= MAX_DESCRIPTION_LEN
}

/// Tests whether a name and a description fit in their bounds.
pub fn fields_within_bounds(name: &String, description: &String) -> (r: bool)
    ensures
        r == fields_fit(name@, description@),
{
    name.as_str().unicode_len() <= MAX_NAME_LEN && description.as_str().unicode_len()
        <= MAX_DESCRIPTION_LEN
}

/// The authenticated key of a voter.
#[derive(Debug, Clone, Copy)]
pub struct VoterKey {
    pub bytes: [u8; 32],
}

impl View for VoterKey {
    type V = Seq<u8>;

    open spec fn view(&self) -> Seq<u8> {
        self.bytes@
    }
}

impl VoterKey {
    pub fn new(bytes: [u8; 32]) -> (r: VoterKey)
        ensures
            r@ == bytes@,
    {
        VoterKey { bytes }
    }

    /// Tests whether two keys hold the same bytes.
    pub fn same_as(&self, other: &VoterKey) -> (r: bool)
        ensures
            r == (self@ == other@),
    {
        let mut i: usize = 0;
        while i < KEY_LEN
            invariant
                0 <= i <= KEY_LEN,
                self@.len() == KEY_LEN,
                other@.len() == KEY_LEN,
                forall|j: int| 0 <= j < i ==> self@[j] == other@[j],
            decreases KEY_LEN - i,
        {
            if self.bytes[i] != other.bytes[i] {
                return false;
            }
            i = i + 1;
        }
        assert(self@ =~= other@);
        true
    }
}

/// A poll: a named contest open for votes between two times.
pub struct Poll {
    pub poll_id: u64,
    pub poll_name: String,
    pub poll_description: String,
    pub poll_start_time: u64,
    pub poll_end_time: u64,
    pub poll_is_finished: bool,
    pub total_votes: u64,
    /// The ids of the registered candidates, in order of registration.
    pub candidates: Vec<u64>,
}

/// What a poll holds, as mathematical values.
pub struct PollView {
    pub id: u64,
    pub name: Seq<char>,
    pub description: Seq<char>,
    pub start_time: u64,
    pub end_time: u64,
    pub is_finished: bool,
    pub total_votes: u64,
    pub candidates: Seq<u64>,
}

impl View for Poll {
    type V = PollView;

    open spec fn view(&self) -> PollView {
        PollView {
            id: self.poll_id,
            name: self.poll_name@,
            description: self.poll_description@,
            start_time: self.poll_start_time,
            end_time: self.poll_end_time,
            is_finished: self.poll_is_finished,
            total_votes: self.total_votes,
            candidates: self.candidates@,
        }
    }
}

impl PollView {
    /// Names fit their bounds and no candidate is registered twice.
    pub open spec fn wf(self) -> bool {
        fields_fit(self.name, self.description) && self.candidates.no_duplicates()
    }
}

/// A candidate of a poll, and the votes it has received.
pub struct Candidate {
    pub candidate_id: u64,
    pub candidate_name: String,
    pub candidate_description: String,
    pub candidate_votes: u64,
}

/// What a candidate holds, as mathematical values.
pub struct CandidateView {
    pub id: u64,
    pub name: Seq<char>,
    pub description: Seq<char>,
    pub votes: u64,
}

impl View for Candidate {
    type V = CandidateView;

    open spec fn view(&self) -> CandidateView {
        CandidateView {
            id: self.candidate_id,
            name: self.candidate_name@,
            description: self.candidate_description@,
            votes: self.candidate_votes,
        }
    }
}

/// A freshly created poll: no votes, not finished, no candidates.
pub open spec fn new_poll(
    id: u64,
    name: Seq<char>,
    description: Seq<char>,
    start_time: u64,
    end_time: u64,
) -> PollView {
    PollView {
        id,
        name,
        description,
        start_time,
        end_time,
        is_finished: false,
        total_votes: 0,
        candidates: Seq::empty(),
    }
}

/// A freshly registered candidate, with no votes.
pub open spec fn new_candidate(id: u64, name: Seq<char>, description: Seq<char>) -> CandidateView {
    CandidateView { id, name, description, votes: 0 }
}

/// The poll with one more candidate id at the end of its list.
pub open spec fn poll_with_candidate(poll: PollView, candidate_id: u64) -> PollView {
    PollView { candidates: poll.candidates.push(candidate_id), ..poll }
}

/// The poll with one more vote counted.
pub open spec fn poll_counted(poll: PollView) -> PollView {
    PollView { total_votes: (poll.total_votes + 1) as u64, ..poll }
}

/// The candidate with one more vote counted.
pub open spec fn candidate_counted(candidate: CandidateView) -> CandidateView {
    CandidateView { votes: (candidate.votes + 1) as u64, ..candidate }
}

/// Why a candidate cannot be registered in `poll`, checked in this order,
/// or `None` where it can.
pub open spec fn register_rejection(
    poll: PollView,
    poll_id: u64,
    candidate_id: u64,
    name: Seq<char>,
    description: Seq<char>,
) -> Option<ErrorCode> {
    if poll.id != poll_id {
        Some(ErrorCode::PollNotFound)
    } else if poll.candidates.contains(candidate_id) {
        Some(ErrorCode::CandidateAlreadyExists)
    } else if !fields_fit(name, description) {
        Some(ErrorCode::FieldTooLong)
    } else {
        None
    }
}

/// Why a vote at time `now` falls outside the poll's window, checked in
/// this order, or `None` where the poll is open.
pub open spec fn window_rejection(poll: PollView, now: u64) -> Option<ErrorCode> {
    if now < poll.start_time {
        Some(ErrorCode::PollNotStarted)
    } else if now > poll.end_time {
        Some(ErrorCode::PollEnded)
    } else if poll.is_finished {
        Some(ErrorCode::PollAlreadyEnded)
    } else {
        None
    }
}

/// Why a vote for `candidate` in `poll` is refused, checked in this order,
/// or `None` where it is counted.
pub open spec fn vote_rejection(
    poll: PollView,
    candidate: CandidateView,
    poll_id: u64,
    candidate_id: u64,
    already_voted: bool,
    now: u64,
) -> Option<ErrorCode> {
    if poll.id != poll_id {
        Some(ErrorCode::PollNotFound)
    } else if window_rejection(poll, now).is_some() {
        window_rejection(poll, now)
    } else if !poll.candidates.contains(candidate_id) || candidate.id != candidate_id {
        Some(ErrorCode::CandidateNotFound)
    } else if already_voted {
        Some(ErrorCode::AlreadyVoted)
    } else if poll.total_votes == u64::MAX || candidate.votes == u64::MAX {
        Some(ErrorCode::VoteCountOverflow)
    } else {
        None
    }
}

impl Poll {
    /// Tests whether a candidate id is registered in the poll.
    pub fn has_candidate(&self, candidate_id: u64) -> (r: bool)
        ensures
            r == self@.candidates.contains(candidate_id),
    {
        let mut i: usize = 0;
        while i < self.candidates.len()
            invariant
                0 <= i <= self.candidates@.len(),
                forall|j: int| 0 <= j < i ==> self.candidates@[j] != candidate_id,
            decreases self.candidates@.len() - i,
        {
            if self.candidates[i] == candidate_id {
                return true;
            }
            i = i + 1;
        }
        false
    }

    /// Tells why a vote at time `now` falls outside the poll's window.
    pub fn check_window(&self, now: u64) -> (r: Option<ErrorCode>)
        ensures
            r == window_rejection(self@, now),
    {
        if now < self.poll_start_time {
            Some(ErrorCode::PollNotStarted)
        } else if now > self.poll_end_time {
            Some(ErrorCode::PollEnded)
        } else if self.poll_is_finished {
            Some(ErrorCode::PollAlreadyEnded)
        } else {
            None
        }
    }

    /// Closes the poll to further votes, whatever its window.
    pub fn finish(&mut self)
        ensures
            final(self)@ == (PollView { is_finished: true, ..old(self)@ }),
    {
        self.poll_is_finished = true;
    }
}

/// Creates a poll record. The name and the description must fit their
/// bounds.
pub fn initialize_poll(
    poll_id: u64,
    poll_name: String,
    poll_description: String,
    poll_start_time: u64,
    poll_end_time: u64,
) -> (r: Result<Poll, ErrorCode>)
    ensures
        match r {
            Ok(p) => fields_fit(poll_name@, poll_description@) && p@ == new_poll(
                poll_id,
                poll_name@,
                poll_description@,
                poll_start_time,
                poll_end_time,
            ),
            Err(e) => !fields_fit(poll_name@, poll_description@) && e == ErrorCode::FieldTooLong,
        },
{
    if !fields_within_bounds(&poll_name, &poll_description) {
        return Err(ErrorCode::FieldTooLong);
    }
    let p = Poll {
        poll_id,
        poll_name,
        poll_description,
        poll_start_time,
        poll_end_time,
        poll_is_finished: false,
        total_votes: 0,
        candidates: Vec::new(),
    };
    assert(p@.candidates =~= Seq::<u64>::empty());
    Ok(p)
}

/// Creates a candidate record and registers its id in `poll`. Where it is
/// refused, `poll` is left as it was.
pub fn initialize_candidate(
    poll: &mut Poll,
    poll_id: u64,
    candidate_id: u64,
    candidate_name: String,
    candidate_description: String,
) -> (r: Result<Candidate, ErrorCode>)
    ensures
        match r {
            Ok(c) => register_rejection(
                old(poll)@,
                poll_id,
                candidate_id,
                candidate_name@,
                candidate_description@,
            ) is None && c@ == new_candidate(candidate_id, candidate_name@, candidate_description@)
                && final(poll)@ == poll_with_candidate(old(poll)@, candidate_id),
            Err(e) => register_rejection(
                old(poll)@,
                poll_id,
                candidate_id,
                candidate_name@,
                candidate_description@,
            ) == Some(e) && final(poll)@ == old(poll)@,
        },
{
    if poll.poll_id != poll_id {
        return Err(ErrorCode::PollNotFound);
    }
    if poll.has_candidate(candidate_id) {
        return Err(ErrorCode::CandidateAlreadyExists);
    }
    if !fields_within_bounds(&candidate_name, &candidate_description) {
        return Err(ErrorCode::FieldTooLong);
    }
    poll.candidates.push(candidate_id);
    Ok(
        Candidate {
            candidate_id,
            candidate_name,
            candidate_description,
            candidate_votes: 0,
        },
    )
}

/// Counts a vote for `candidate` in `poll` at time `now`. `already_voted`
/// tells whether the voter's marker for this poll already exists. Where the
/// vote is refused, neither record changes.
pub fn vote(
    poll: &mut Poll,
    candidate: &mut Candidate,
    poll_id: u64,
    candidate_id: u64,
    already_voted: bool,
    now: u64,
) -> (r: Result<(), ErrorCode>)
    ensures
        match r {
            Ok(_) => vote_rejection(
                old(poll)@,
                old(candidate)@,
                poll_id,
                candidate_id,
                already_voted,
                now,
            ) is None && final(poll)@ == poll_counted(old(poll)@) && final(candidate)@
                == candidate_counted(old(candidate)@),
            Err(e) => vote_rejection(
                old(poll)@,
                old(candidate)@,
                poll_id,
                candidate_id,
                already_voted,
                now,
            ) == Some(e) && final(poll)@ == old(poll)@ && final(candidate)@ == old(candidate)@,
        },
{
    if poll.poll_id != poll_id {
        return Err(ErrorCode::PollNotFound);
    }
    if let Some(e) = poll.check_window(now) {
        return Err(e);
    }
    if !poll.has_candidate(candidate_id) || candidate.candidate_id != candidate_id {
        return Err(ErrorCode::CandidateNotFound);
    }
    if already_voted {
        return Err(ErrorCode::AlreadyVoted);
    }
    if poll.total_votes == u64::MAX || candidate.candidate_votes == u64::MAX {
        return Err(ErrorCode::VoteCountOverflow);
    }
    poll.total_votes = poll.total_votes + 1;
    candidate.candidate_votes = candidate.candidate_votes + 1;
    Ok(())
}

} // verus!
