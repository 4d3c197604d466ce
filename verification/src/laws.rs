use vstd::prelude::*;

use crate::errors::VoteError;
use crate::ledger::Ledger;
use crate::ledger::ballot_entry_ok;
use crate::ledger::ballots_for;
use crate::ledger::has_key;
use crate::ledger::ledger_cast_err;
use crate::ledger::lemma_value_at;
use crate::ledger::value_at;
use crate::ops::cast_vote_err;
use crate::ops::create_vote_err;
use crate::ops::end_vote_err;
use crate::records::Identity;
use crate::records::Vote;
use crate::records::VoterRecord;
use crate::records::tally_sum;
use crate::records::text_len;

verus! {

/// Idempotent duplicate prevention, at the record level: a used ballot
/// slot — which a successful `cast_vote` leaves behind, and which no
/// operation ever clears — never admits a second cast.  Whatever the
/// poll's state the cast fails, and whenever the poll is active, in time
/// and the index valid, the failure is precisely `AlreadyVoted`.
pub proof fn lemma_no_second_cast(v: Vote, b: VoterRecord, option_index: u8, now: i64)
    requires
        b.has_voted,
    ensures
        cast_vote_err(v, b, option_index, now) is Some,
        v.is_active && now <= v.end_time && (option_index as int) < v.options@.len()
            ==> cast_vote_err(v, b, option_index, now) == Some(VoteError::AlreadyVoted),
{
}

/// Idempotent duplicate prevention, at the store level: in a well-formed
/// ledger at most one ballot ever exists under a given (poll, voter) key,
/// and a Cast for a pair that already holds its ballot fails — with
/// `AlreadyVoted` whenever the poll itself would have accepted the vote.
pub proof fn lemma_ledger_duplicate_cast(
    l: Ledger,
    vote_addr: Identity,
    voter: Identity,
    option_index: u8,
    now: i64,
    i: int,
)
    requires
        l.wf(),
        0 <= i < l.ballots@.len(),
        l.ballots@[i].0 == (vote_addr, voter),
    ensures
        forall|j: int|
            0 <= j < l.ballots@.len() && j != i ==> (#[trigger] l.ballots@[j]).0 != (
            vote_addr,
            voter,
            ),
        ledger_cast_err(l, vote_addr, voter, option_index, now) is Some,
        ({
            let v = value_at(l.polls@, vote_addr);
            has_key(l.polls@, vote_addr) && v.is_active && now <= v.end_time && (
            option_index as int) < v.options@.len() ==> ledger_cast_err(
                l,
                vote_addr,
                voter,
                option_index,
                now,
            ) == Some(VoteError::AlreadyVoted)
        }),
{
    assert forall|j: int| 0 <= j < l.ballots@.len() && j != i implies (#[trigger] l.ballots@[j]).0
        != (vote_addr, voter) by {
        if j < i {
            assert(l.ballots@[j].0 != l.ballots@[i].0);
        } else {
            assert(l.ballots@[i].0 != l.ballots@[j].0);
        }
    }
    lemma_value_at(l.ballots@, i);
    assert(ballot_entry_ok(l.ballots@[i]));
    assert(has_key(l.polls@, l.ballots@[i].0.0));
}

/// Tally conservation: in any well-formed ledger — the state after any
/// sequence of operations, each of which requires and re-establishes the
/// invariant — every poll's `total_votes` equals the sum of its tally,
/// and also the number of ballots that refer to it.
pub proof fn lemma_tally_conservation(l: Ledger, i: int)
    requires
        l.wf(),
        0 <= i < l.polls@.len(),
    ensures
        l.polls@[i].1.total_votes == tally_sum(l.polls@[i].1.vote_counts@),
        l.polls@[i].1.total_votes == ballots_for(l.ballots@, l.polls@[i].0),
{
}

/// Bounds enforcement for the option count: with an acceptable title and
/// description, fewer than 2 or more than 10 options fail with
/// `InvalidOptionsCount`; within bounds, Create accepts the inputs as soon
/// as every label and the deadline pass too.
pub proof fn lemma_options_count_bounds(
    title: Seq<char>,
    description: Seq<char>,
    options: Seq<String>,
    end_time: i64,
    now: i64,
)
    requires
        1 <= text_len(title) <= 100,
        text_len(description) <= 500,
    ensures
        !(2 <= options.len() <= 10) ==> create_vote_err(title, description, options, end_time, now)
            == Some(VoteError::InvalidOptionsCount),
        (2 <= options.len() <= 10 && (forall|i: int|
            0 <= i < options.len() ==> 1 <= text_len((#[trigger] options[i])@) <= 50) && end_time
            > now) ==> create_vote_err(title, description, options, end_time, now) is None,
{
}

/// Deadline enforcement: once the current time is past the deadline, a
/// cast fails with `VotingPeriodEnded` even while the poll is still
/// marked active.
pub proof fn lemma_deadline_enforced(v: Vote, b: VoterRecord, option_index: u8, now: i64)
    requires
        v.is_active,
        now > v.end_time,
    ensures
        cast_vote_err(v, b, option_index, now) == Some(VoteError::VotingPeriodEnded),
{
}

/// A closed poll stays closed: Close is idempotent by rejection.  Once a
/// poll is inactive no Close succeeds — the authority itself gets
/// `VoteAlreadyEnded` — and by `end_vote`'s contract the failed attempt
/// changes nothing, so `is_active` falls from true to false at most once
/// and never rises again.
pub proof fn lemma_close_once(v: Vote, caller: Identity)
    requires
        !v.is_active,
    ensures
        end_vote_err(v, caller) is Some,
        caller == v.authority ==> end_vote_err(v, caller) == Some(VoteError::VoteAlreadyEnded),
{
}

/// Authorization: a Close attempted by any identity other than the
/// recorded authority fails with `Unauthorized` — and by `end_vote`'s
/// contract such a failure leaves the record, `is_active` included,
/// untouched.
pub proof fn lemma_close_unauthorized(v: Vote, caller: Identity)
    requires
        caller != v.authority,
    ensures
        end_vote_err(v, caller) == Some(VoteError::Unauthorized),
{
}

} // verus!
