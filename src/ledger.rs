//! The ledger: every poll by its id, with the candidate records registered to
//! it and the markers of the voters who have voted in it. Each operation is
//! one atomic step: it is applied whole or, when refused, not at all.

use std::collections::HashMap;

use vstd::prelude::*;

use crate::error::ErrorCode;
use crate::records::{
    Candidate, CandidateView, Poll, PollView, VoterKey, candidate_counted, fields_fit,
    initialize_candidate, initialize_poll, new_candidate, new_poll, poll_counted,
    poll_with_candidate, register_rejection, vote, window_rejection,
};

verus! {

broadcast use vstd::std_specs::hash::group_hash_axioms;

/// One poll as the ledger holds it: the poll record, its candidates' records
/// in order of registration, and the keys of those who voted in it.
pub struct PollState {
    pub poll: PollView,
    pub candidates: Seq<CandidateView>,
    pub voters: Seq<Seq<u8>>,
}

impl PollState {
    /// The poll record is well formed, and the candidate records line up
    /// one for one with the poll's list of candidate ids.
    pub open spec fn wf(self) -> bool {
        &&& self.poll.wf()
        &&& self.candidates.len() == self.poll.candidates.len()
        &&& forall|i: int|
            0 <= i < self.candidates.len() ==> #[trigger] self.candidates[i].id
                == self.poll.candidates[i]
    }

    /// The record of a registered candidate.
    pub open spec fn candidate(self, candidate_id: u64) -> CandidateView {
        self.candidates[self.poll.candidates.index_of(candidate_id)]
    }

    /// Whether a voter's marker exists in this poll.
    pub open spec fn has_voted(self, voter: Seq<u8>) -> bool {
        self.voters.contains(voter)
    }

    /// Why a vote is refused in this poll, checked in this order, or `None`
    /// where it is counted.
    pub open spec fn cast_rejection(self, candidate_id: u64, voter: Seq<u8>, now: u64) -> Option<
        ErrorCode,
    > {
        if window_rejection(self.poll, now).is_some() {
            window_rejection(self.poll, now)
        } else if !self.poll.candidates.contains(candidate_id) {
            Some(ErrorCode::CandidateNotFound)
        } else if self.has_voted(voter) {
            Some(ErrorCode::AlreadyVoted)
        } else if self.poll.total_votes == u64::MAX || self.candidate(candidate_id).votes
            == u64::MAX {
            Some(ErrorCode::VoteCountOverflow)
        } else {
            None
        }
    }

    /// The poll after a counted vote: one more vote in all and for the
    /// candidate, and the voter's marker added.
    pub open spec fn after_cast(self, candidate_id: u64, voter: Seq<u8>) -> PollState {
        let i = self.poll.candidates.index_of(candidate_id);
        PollState {
            poll: poll_counted(self.poll),
            candidates: self.candidates.update(i, candidate_counted(self.candidates[i])),
            voters: self.voters.push(voter),
        }
    }

    /// The poll after a candidate is registered.
    pub open spec fn after_register(
        self,
        candidate_id: u64,
        name: Seq<char>,
        description: Seq<char>,
    ) -> PollState {
        PollState {
            poll: poll_with_candidate(self.poll, candidate_id),
            candidates: self.candidates.push(new_candidate(candidate_id, name, description)),
            voters: self.voters,
        }
    }
}

/// Every poll is well formed and stored under its own id.
pub open spec fn ledger_wf(m: Map<u64, PollState>) -> bool {
    forall|id: u64| #[trigger] m.contains_key(id) ==> m[id].wf() && m[id].poll.id == id
}

/// Why a poll cannot be created, checked in this order, or `None` where it
/// can.
pub open spec fn create_rejection(
    m: Map<u64, PollState>,
    poll_id: u64,
    name: Seq<char>,
    description: Seq<char>,
) -> Option<ErrorCode> {
    if m.contains_key(poll_id) {
        Some(ErrorCode::AlreadyExists)
    } else if !fields_fit(name, description) {
        Some(ErrorCode::FieldTooLong)
    } else {
        None
    }
}

/// The ledger after a poll is created.
pub open spec fn after_create(
    m: Map<u64, PollState>,
    poll_id: u64,
    name: Seq<char>,
    description: Seq<char>,
    start_time: u64,
    end_time: u64,
) -> Map<u64, PollState> {
    m.insert(
        poll_id,
        PollState {
            poll: new_poll(poll_id, name, description, start_time, end_time),
            candidates: Seq::empty(),
            voters: Seq::empty(),
        },
    )
}

/// Why a candidate cannot be registered, checked in this order, or `None`
/// where it can.
pub open spec fn candidate_rejection(
    m: Map<u64, PollState>,
    poll_id: u64,
    candidate_id: u64,
    name: Seq<char>,
    description: Seq<char>,
) -> Option<ErrorCode> {
    if !m.contains_key(poll_id) {
        Some(ErrorCode::PollNotFound)
    } else {
        register_rejection(m[poll_id].poll, poll_id, candidate_id, name, description)
    }
}

/// The ledger after a candidate is registered.
pub open spec fn after_register(
    m: Map<u64, PollState>,
    poll_id: u64,
    candidate_id: u64,
    name: Seq<char>,
    description: Seq<char>,
) -> Map<u64, PollState> {
    m.insert(poll_id, m[poll_id].after_register(candidate_id, name, description))
}

/// Why a vote is refused, checked in this order, or `None` where it is
/// counted.
pub open spec fn vote_refusal(
    m: Map<u64, PollState>,
    poll_id: u64,
    candidate_id: u64,
    voter: Seq<u8>,
    now: u64,
) -> Option<ErrorCode> {
    if !m.contains_key(poll_id) {
        Some(ErrorCode::PollNotFound)
    } else {
        m[poll_id].cast_rejection(candidate_id, voter, now)
    }
}

/// The ledger after a vote is counted.
pub open spec fn after_vote(
    m: Map<u64, PollState>,
    poll_id: u64,
    candidate_id: u64,
    voter: Seq<u8>,
) -> Map<u64, PollState> {
    m.insert(poll_id, m[poll_id].after_cast(candidate_id, voter))
}

/// The ledger after a poll is closed by hand.
pub open spec fn after_close(m: Map<u64, PollState>, poll_id: u64) -> Map<u64, PollState> {
    m.insert(
        poll_id,
        PollState { poll: PollView { is_finished: true, ..m[poll_id].poll }, ..m[poll_id] },
    )
}

struct PollEntry {
    poll: Poll,
    candidates: Vec<Candidate>,
    voters: Vec<VoterKey>,
}

impl View for PollEntry {
    type V = PollState;

    closed spec fn view(&self) -> PollState {
        PollState {
            poll: self.poll@,
            candidates: self.candidates@.map_values(|c: Candidate| c@),
            voters: self.voters@.map_values(|v: VoterKey| v@),
        }
    }
}

impl PollEntry {
    /// The index of a candidate id in the poll's list.
    fn find_candidate(&self, candidate_id: u64) -> (r: Option<usize>)
        ensures
            match r {
                Some(i) => i < self.poll.candidates@.len() && self.poll.candidates@[i as int]
                    == candidate_id,
                None => !self.poll.candidates@.contains(candidate_id),
            },
    {
        let mut i: usize = 0;
        while i < self.poll.candidates.len()
            invariant
                0 <= i <= self.poll.candidates@.len(),
                forall|j: int| 0 <= j < i ==> self.poll.candidates@[j] != candidate_id,
            decreases self.poll.candidates@.len() - i,
        {
            if self.poll.candidates[i] == candidate_id {
                return Some(i);
            }
            i = i + 1;
        }
        None
    }

    /// Whether the voter's marker exists in this poll.
    fn has_voted(&self, voter: &VoterKey) -> (r: bool)
        ensures
            r == self@.has_voted(voter@),
    {
        let ghost keys = self@.voters;
        let mut i: usize = 0;
        while i < self.voters.len()
            invariant
                0 <= i <= self.voters@.len(),
                keys == self@.voters,
                keys.len() == self.voters@.len(),
                forall|j: int| 0 <= j < i ==> keys[j] != voter@,
            decreases self.voters@.len() - i,
        {
            if self.voters[i].same_as(voter) {
                assert(keys[i as int] == voter@);
                return true;
            }
            i = i + 1;
        }
        false
    }

    /// Counts a vote in this poll, or tells why it is refused.
    fn cast(&mut self, poll_id: u64, candidate_id: u64, voter: &VoterKey, now: u64) -> (r: Result<
        (),
        ErrorCode,
    >)
        requires
            old(self)@.wf(),
            old(self)@.poll.id == poll_id,
        ensures
            final(self)@.wf(),
            match r {
                Ok(_) => old(self)@.cast_rejection(candidate_id, voter@, now) is None
                    && final(self)@ == old(self)@.after_cast(candidate_id, voter@),
                Err(e) => old(self)@.cast_rejection(candidate_id, voter@, now) == Some(e)
                    && final(self)@ == old(self)@,
            },
    {
        let ghost st = self@;
        if let Some(e) = self.poll.check_window(now) {
            return Err(e);
        }
        let idx = match self.find_candidate(candidate_id) {
            Some(i) => i,
            None => {
                return Err(ErrorCode::CandidateNotFound);
            },
        };
        let voted = self.has_voted(voter);
        let mut cand = self.candidates.remove(idx);
        let r = vote(&mut self.poll, &mut cand, poll_id, candidate_id, voted, now);
        self.candidates.insert(idx, cand);
        if r.is_ok() {
            self.voters.push(*voter);
        }
        proof {
            let k = idx as int;
            let cands = self.candidates@.map_values(|c: Candidate| c@);
            if r.is_ok() {
                assert(cands =~= st.candidates.update(k, candidate_counted(st.candidates[k])));
                assert(self@.voters =~= st.voters.push(voter@));
            } else {
                assert(cands =~= st.candidates);
                assert(self@.voters =~= st.voters);
            }
        }
        r
    }

    /// Registers a candidate in this poll, or tells why it is refused.
    fn register(
        &mut self,
        poll_id: u64,
        candidate_id: u64,
        candidate_name: String,
        candidate_description: String,
    ) -> (r: Result<(), ErrorCode>)
        requires
            old(self)@.wf(),
            old(self)@.poll.id == poll_id,
        ensures
            final(self)@.wf(),
            match r {
                Ok(_) => register_rejection(
                    old(self)@.poll,
                    poll_id,
                    candidate_id,
                    candidate_name@,
                    candidate_description@,
                ) is None && final(self)@ == old(self)@.after_register(
                    candidate_id,
                    candidate_name@,
                    candidate_description@,
                ),
                Err(e) => register_rejection(
                    old(self)@.poll,
                    poll_id,
                    candidate_id,
                    candidate_name@,
                    candidate_description@,
                ) == Some(e) && final(self)@ == old(self)@,
            },
    {
        let ghost st = self@;
        let ghost name = candidate_name@;
        let ghost description = candidate_description@;
        match initialize_candidate(
            &mut self.poll,
            poll_id,
            candidate_id,
            candidate_name,
            candidate_description,
        ) {
            Ok(c) => {
                self.candidates.push(c);
                proof {
                    let cands = self.candidates@.map_values(|c: Candidate| c@);
                    assert(cands =~= st.candidates.push(new_candidate(candidate_id, name, description)));
                    assert(self@.voters =~= st.voters);
                }
                Ok(())
            },
            Err(e) => {
                proof {
                    assert(self@.candidates =~= st.candidates);
                    assert(self@.voters =~= st.voters);
                }
                Err(e)
            },
        }
    }
}

/// All polls of the ledger, by id.
pub struct Ledger {
    polls: HashMap<u64, PollEntry>,
}

impl View for Ledger {
    type V = Map<u64, PollState>;

    closed spec fn view(&self) -> Map<u64, PollState> {
        self.polls@.map_values(|e: PollEntry| e@)
    }
}

impl Ledger {
    pub open spec fn wf(&self) -> bool {
        ledger_wf(self@)
    }

    /// An empty ledger.
    pub fn new() -> (r: Ledger)
        ensures
            r.wf(),
            r@ == Map::<u64, PollState>::empty(),
    {
        let r = Ledger { polls: HashMap::new() };
        assert(r@ =~= Map::<u64, PollState>::empty());
        r
    }

    /// Takes a poll's entry out of the map, to be put back by `restore`.
    fn take(&mut self, poll_id: u64) -> (r: Option<PollEntry>)
        requires
            old(self).wf(),
        ensures
            match r {
                Some(e) => old(self)@.contains_key(poll_id) && e@ == old(self)@[poll_id]
                    && final(self)@ == old(self)@.remove(poll_id),
                None => !old(self)@.contains_key(poll_id) && final(self)@ == old(self)@,
            },
    {
        let r = self.polls.remove(&poll_id);
        assert(self@ =~= old(self)@.remove(poll_id));
        r
    }

    /// Puts a poll's entry under its id.
    fn restore(&mut self, poll_id: u64, entry: PollEntry)
        ensures
            final(self)@ == old(self)@.insert(poll_id, entry@),
    {
        self.polls.insert(poll_id, entry);
        assert(self@ =~= old(self)@.insert(poll_id, entry@));
    }

    /// Creates a poll under `poll_id`, with no candidates and no votes.
    pub fn create_poll(
        &mut self,
        poll_id: u64,
        poll_name: String,
        poll_description: String,
        poll_start_time: u64,
        poll_end_time: u64,
    ) -> (r: Result<(), ErrorCode>)
        requires
            old(self).wf(),
        ensures
            final(self).wf(),
            match r {
                Ok(_) => create_rejection(old(self)@, poll_id, poll_name@, poll_description@)
                    is None && final(self)@ == after_create(
                    old(self)@,
                    poll_id,
                    poll_name@,
                    poll_description@,
                    poll_start_time,
                    poll_end_time,
                ),
                Err(e) => create_rejection(old(self)@, poll_id, poll_name@, poll_description@)
                    == Some(e) && final(self)@ == old(self)@,
            },
    {
        if self.polls.contains_key(&poll_id) {
            return Err(ErrorCode::AlreadyExists);
        }
        let poll = match initialize_poll(
            poll_id,
            poll_name,
            poll_description,
            poll_start_time,
            poll_end_time,
        ) {
            Ok(p) => p,
            Err(e) => {
                return Err(e);
            },
        };
        let entry = PollEntry { poll, candidates: Vec::new(), voters: Vec::new() };
        assert(entry@.candidates =~= Seq::<CandidateView>::empty());
        assert(entry@.voters =~= Seq::<Seq<u8>>::empty());
        self.restore(poll_id, entry);
        Ok(())
    }

    /// Registers a candidate in the poll `poll_id`, creating its record.
    pub fn register_candidate(
        &mut self,
        poll_id: u64,
        candidate_id: u64,
        candidate_name: String,
        candidate_description: String,
    ) -> (r: Result<(), ErrorCode>)
        requires
            old(self).wf(),
        ensures
            final(self).wf(),
            match r {
                Ok(_) => candidate_rejection(
                    old(self)@,
                    poll_id,
                    candidate_id,
                    candidate_name@,
                    candidate_description@,
                ) is None && final(self)@ == after_register(
                    old(self)@,
                    poll_id,
                    candidate_id,
                    candidate_name@,
                    candidate_description@,
                ),
                Err(e) => candidate_rejection(
                    old(self)@,
                    poll_id,
                    candidate_id,
                    candidate_name@,
                    candidate_description@,
                ) == Some(e) && final(self)@ == old(self)@,
            },
    {
        let ghost m = self@;
        let mut entry = match self.take(poll_id) {
            Some(e) => e,
            None => {
                return Err(ErrorCode::PollNotFound);
            },
        };
        let r = entry.register(poll_id, candidate_id, candidate_name, candidate_description);
        self.restore(poll_id, entry);
        assert(m.remove(poll_id).insert(poll_id, m[poll_id]) =~= m);
        proof {
            if r.is_ok() {
                assert(self@ =~= after_register(
                    m,
                    poll_id,
                    candidate_id,
                    candidate_name@,
                    candidate_description@,
                ));
            }
        }
        r
    }

    /// Counts the vote of `voter` for a candidate of the poll `poll_id` at
    /// time `now`, and records that the voter has voted in that poll.
    pub fn cast_vote(&mut self, poll_id: u64, candidate_id: u64, voter: &VoterKey, now: u64) -> (r:
        Result<(), ErrorCode>)
        requires
            old(self).wf(),
        ensures
            final(self).wf(),
            match r {
                Ok(_) => vote_refusal(old(self)@, poll_id, candidate_id, voter@, now) is None
                    && final(self)@ == after_vote(old(self)@, poll_id, candidate_id, voter@),
                Err(e) => vote_refusal(old(self)@, poll_id, candidate_id, voter@, now) == Some(e)
                    && final(self)@ == old(self)@,
            },
    {
        let ghost m = self@;
        let mut entry = match self.take(poll_id) {
            Some(e) => e,
            None => {
                return Err(ErrorCode::PollNotFound);
            },
        };
        let r = entry.cast(poll_id, candidate_id, voter, now);
        self.restore(poll_id, entry);
        assert(m.remove(poll_id).insert(poll_id, m[poll_id]) =~= m);
        proof {
            if r.is_ok() {
                assert(self@ =~= after_vote(m, poll_id, candidate_id, voter@));
            }
        }
        r
    }

    /// Closes the poll `poll_id` to further votes.
    pub fn close_poll(&mut self, poll_id: u64) -> (r: Result<(), ErrorCode>)
        requires
            old(self).wf(),
        ensures
            final(self).wf(),
            match r {
                Ok(_) => old(self)@.contains_key(poll_id) && final(self)@ == after_close(
                    old(self)@,
                    poll_id,
                ),
                Err(e) => !old(self)@.contains_key(poll_id) && e == ErrorCode::PollNotFound
                    && final(self)@ == old(self)@,
            },
    {
        let ghost m = self@;
        let mut entry = match self.take(poll_id) {
            Some(e) => e,
            None => {
                return Err(ErrorCode::PollNotFound);
            },
        };
        entry.poll.finish();
        self.restore(poll_id, entry);
        assert(self@ =~= after_close(m, poll_id));
        Ok(())
    }

    /// The poll record stored under `poll_id`.
    pub fn poll(&self, poll_id: u64) -> (r: Option<&Poll>)
        ensures
            match r {
                Some(p) => self@.contains_key(poll_id) && p@ == self@[poll_id].poll,
                None => !self@.contains_key(poll_id),
            },
    {
        match self.polls.get(&poll_id) {
            Some(e) => Some(&e.poll),
            None => None,
        }
    }

    /// The record of candidate `candidate_id` of the poll `poll_id`.
    pub fn candidate(&self, poll_id: u64, candidate_id: u64) -> (r: Option<&Candidate>)
        requires
            self.wf(),
        ensures
            match r {
                Some(c) => self@.contains_key(poll_id) && self@[poll_id].poll.candidates.contains(
                    candidate_id,
                ) && c@ == self@[poll_id].candidate(candidate_id),
                None => !self@.contains_key(poll_id) || !self@[poll_id].poll.candidates.contains(
                    candidate_id,
                ),
            },
    {
        match self.polls.get(&poll_id) {
            Some(e) => {
                match e.find_candidate(candidate_id) {
                    Some(i) => {
                        proof {
                            assert(self@.contains_key(poll_id));
                            assert(e@ == self@[poll_id]);
                            let st = self@[poll_id];
                            assert(st.wf());
                            assert(e@.candidates.len() == e.candidates@.len());
                            assert(e@.candidates[i as int] == e.candidates@[i as int]@);
                            let k = st.poll.candidates.index_of(candidate_id);
                            assert(st.poll.candidates.contains(candidate_id));
                            assert(st.poll.candidates[k] == candidate_id);
                        }
                        Some(&e.candidates[i])
                    },
                    None => None,
                }
            },
            None => None,
        }
    }

    /// Whether `voter` has voted in the poll `poll_id`.
    pub fn has_voted(&self, poll_id: u64, voter: &VoterKey) -> (r: bool)
        ensures
            r == (self@.contains_key(poll_id) && self@[poll_id].has_voted(voter@)),
    {
        match self.polls.get(&poll_id) {
            Some(e) => e.has_voted(voter),
            None => false,
        }
    }
}

} // verus!
