//! Laws of the ledger, stated over the transitions that its operations'
//! contracts use.

use vstd::prelude::*;

use crate::error::ErrorCode;
use crate::ledger::{
    after_create, after_register, after_vote, candidate_rejection, create_rejection, ledger_wf,
    vote_refusal,
};
use crate::records::{fields_fit, window_rejection};

verus! {

/// A poll with valid fields is created once under a fresh id; a second
/// creation under the same id, whatever its other inputs, fails with
/// `AlreadyExists`.
pub proof fn lemma_create_once(
    m: Map<u64, crate::ledger::PollState>,
    poll_id: u64,
    name: Seq<char>,
    description: Seq<char>,
    start_time: u64,
    end_time: u64,
    name2: Seq<char>,
    description2: Seq<char>,
)
    requires
        ledger_wf(m),
        !m.contains_key(poll_id),
        fields_fit(name, description),
    ensures
        create_rejection(m, poll_id, name, description) is None,
        ledger_wf(after_create(m, poll_id, name, description, start_time, end_time)),
        create_rejection(
            after_create(m, poll_id, name, description, start_time, end_time),
            poll_id,
            name2,
            description2,
        ) == Some(ErrorCode::AlreadyExists),
{
    let m1 = after_create(m, poll_id, name, description, start_time, end_time);
    assert forall|id: u64| #[trigger] m1.contains_key(id) implies m1[id].wf() && m1[id].poll.id
        == id by {
        if id != poll_id {
            assert(m.contains_key(id));
        }
    }
}

/// Two distinct candidates registered one after the other stand at the end
/// of the poll's list in the order of registration.
pub proof fn lemma_register_in_order(
    m: Map<u64, crate::ledger::PollState>,
    poll_id: u64,
    c1: u64,
    name1: Seq<char>,
    description1: Seq<char>,
    c2: u64,
    name2: Seq<char>,
    description2: Seq<char>,
)
    requires
        ledger_wf(m),
        m.contains_key(poll_id),
        c1 != c2,
        !m[poll_id].poll.candidates.contains(c1),
        !m[poll_id].poll.candidates.contains(c2),
        fields_fit(name1, description1),
        fields_fit(name2, description2),
    ensures
        candidate_rejection(m, poll_id, c1, name1, description1) is None,
        candidate_rejection(
            after_register(m, poll_id, c1, name1, description1),
            poll_id,
            c2,
            name2,
            description2,
        ) is None,
        after_register(
            after_register(m, poll_id, c1, name1, description1),
            poll_id,
            c2,
            name2,
            description2,
        )[poll_id].poll.candidates == m[poll_id].poll.candidates + seq![c1, c2],
{
    let m1 = after_register(m, poll_id, c1, name1, description1);
    let m2 = after_register(m1, poll_id, c2, name2, description2);
    assert(!m1[poll_id].poll.candidates.contains(c2)) by {
        if m1[poll_id].poll.candidates.contains(c2) {
            let i = choose|i: int|
                0 <= i < m1[poll_id].poll.candidates.len() && m1[poll_id].poll.candidates[i]
                    == c2;
            if i < m[poll_id].poll.candidates.len() {
                assert(m[poll_id].poll.candidates[i] == c2);
            }
        }
    }
    assert(m2[poll_id].poll.candidates =~= m[poll_id].poll.candidates + seq![c1, c2]);
}

/// Registering a candidate a second time fails with
/// `CandidateAlreadyExists`, whatever its name and description.
pub proof fn lemma_register_twice(
    m: Map<u64, crate::ledger::PollState>,
    poll_id: u64,
    candidate_id: u64,
    name: Seq<char>,
    description: Seq<char>,
    name2: Seq<char>,
    description2: Seq<char>,
)
    requires
        ledger_wf(m),
        candidate_rejection(m, poll_id, candidate_id, name, description) is None,
    ensures
        candidate_rejection(
            after_register(m, poll_id, candidate_id, name, description),
            poll_id,
            candidate_id,
            name2,
            description2,
        ) == Some(ErrorCode::CandidateAlreadyExists),
{
    let m1 = after_register(m, poll_id, candidate_id, name, description);
    let n = m[poll_id].poll.candidates.len();
    assert(m1[poll_id].poll.candidates[n as int] == candidate_id);
}

/// A vote before the start time fails with `PollNotStarted`; one after the
/// end time fails with `PollEnded`; one in an open poll for a candidate that
/// is not registered fails with `CandidateNotFound`.
pub proof fn lemma_vote_refusals(
    m: Map<u64, crate::ledger::PollState>,
    poll_id: u64,
    candidate_id: u64,
    voter: Seq<u8>,
    now: u64,
)
    requires
        m.contains_key(poll_id),
        m[poll_id].poll.start_time <= m[poll_id].poll.end_time,
    ensures
        now < m[poll_id].poll.start_time ==> vote_refusal(m, poll_id, candidate_id, voter, now)
            == Some(ErrorCode::PollNotStarted),
        now > m[poll_id].poll.end_time ==> vote_refusal(m, poll_id, candidate_id, voter, now)
            == Some(ErrorCode::PollEnded),
        window_rejection(m[poll_id].poll, now) is None && !m[poll_id].poll.candidates.contains(
            candidate_id,
        ) ==> vote_refusal(m, poll_id, candidate_id, voter, now) == Some(
            ErrorCode::CandidateNotFound,
        ),
{
}

/// After a counted vote, a second vote by the same voter in the same poll,
/// in the poll's window and for a registered candidate, fails with
/// `AlreadyVoted`.
pub proof fn lemma_second_vote(
    m: Map<u64, crate::ledger::PollState>,
    poll_id: u64,
    c1: u64,
    c2: u64,
    voter: Seq<u8>,
    t1: u64,
    t2: u64,
)
    requires
        ledger_wf(m),
        vote_refusal(m, poll_id, c1, voter, t1) is None,
        window_rejection(m[poll_id].poll, t2) is None,
        m[poll_id].poll.candidates.contains(c2),
    ensures
        vote_refusal(after_vote(m, poll_id, c1, voter), poll_id, c2, voter, t2) == Some(
            ErrorCode::AlreadyVoted,
        ),
{
    let m1 = after_vote(m, poll_id, c1, voter);
    let n = m[poll_id].voters.len();
    assert(m1[poll_id].voters[n as int] == voter);
}

/// A refused operation leaves the ledger as it was, so that repeating it
/// with the same inputs is refused with the same error.
pub proof fn lemma_refusal_repeats(
    before: Map<u64, crate::ledger::PollState>,
    after: Map<u64, crate::ledger::PollState>,
    poll_id: u64,
    candidate_id: u64,
    name: Seq<char>,
    description: Seq<char>,
    voter: Seq<u8>,
    now: u64,
)
    requires
        after == before,
    ensures
        create_rejection(before, poll_id, name, description) is Some ==> create_rejection(
            after,
            poll_id,
            name,
            description,
        ) == create_rejection(before, poll_id, name, description),
        candidate_rejection(before, poll_id, candidate_id, name, description) is Some
            ==> candidate_rejection(after, poll_id, candidate_id, name, description)
            == candidate_rejection(before, poll_id, candidate_id, name, description),
        vote_refusal(before, poll_id, candidate_id, voter, now) is Some ==> vote_refusal(
            after,
            poll_id,
            candidate_id,
            voter,
            now,
        ) == vote_refusal(before, poll_id, candidate_id, voter, now),
{
}

} // verus!
