use vstd::prelude::*;

use crate::errors::VoteError;
use crate::events::VoteCast;
use crate::events::VoteCreated;
use crate::events::VoteEnded;
use crate::records::Identity;
use crate::records::Vote;
use crate::records::VoterRecord;
use crate::records::byte_len;
use crate::records::lemma_tally_sum_push;
use crate::records::lemma_tally_sum_update;
use crate::records::tally_sum;
use crate::records::text_len;

verus! {

/// The first failing Create validation, if any.  The checks run in order:
/// title length, description length, option count, option label lengths,
/// deadline strictly in the future.
pub open spec fn create_vote_err(
    title: Seq<char>,
    description: Seq<char>,
    options: Seq<String>,
    end_time: i64,
    now: i64,
) -> Option<VoteError> {
    if !(1 <= text_len(title) && text_len(title) <= 100) {
        Some(VoteError::InvalidTitleLength)
    } else if !(text_len(description) <= 500) {
        Some(VoteError::InvalidDescriptionLength)
    } else if !(2 <= options.len() && options.len() <= 10) {
        Some(VoteError::InvalidOptionsCount)
    } else if exists|i: int|
        0 <= i < options.len() && !(1 <= text_len((#[trigger] options[i])@) && text_len(
            options[i]@,
        ) <= 50) {
        Some(VoteError::InvalidOptionLength)
    } else if !(end_time > now) {
        Some(VoteError::InvalidEndTime)
    } else {
        None
    }
}

/// Validates the Create inputs and, if they all pass, builds the new poll
/// record together with its creation notification.  The caller has already
/// been authenticated as `authority`, and `vote_addr` is the address the
/// runtime derived from `(authority, title)`; `now` is the current ledger
/// time.  On failure nothing is built: the first failing check names the
/// error and no record exists.
pub fn create_vote(
    vote_addr: Identity,
    authority: Identity,
    title: String,
    description: String,
    options: Vec<String>,
    end_time: i64,
    now: i64,
) -> (r: Result<(Vote, VoteCreated), VoteError>)
    ensures
        ({
            let e = create_vote_err(title@, description@, options@, end_time, now);
            match r {
                Err(err) => e == Some(err),
                Ok((v, ev)) => {
                    &&& e is None
                    &&& v.wf()
                    &&& v.authority == authority
                    &&& v.title@ == title@
                    &&& v.description@ == description@
                    &&& v.options == options
                    &&& v.vote_counts@.len() == options@.len()
                    &&& forall|i: int| 0 <= i < v.vote_counts@.len() ==> v.vote_counts@[i] == 0
                    &&& v.total_votes == 0
                    &&& v.created_at == now
                    &&& v.end_time == end_time
                    &&& v.is_active == true
                    &&& ev.vote == vote_addr
                    &&& ev.title@ == title@
                    &&& ev.authority == authority
                },
            }
        }),
{
    let title_len = byte_len(&title);
    if !(1 <= title_len && title_len <= 100) {
        return Err(VoteError::InvalidTitleLength);
    }
    if byte_len(&description) > 500 {
        return Err(VoteError::InvalidDescriptionLength);
    }
    let n_options = options.len();
    if !(2 <= n_options && n_options <= 10) {
        return Err(VoteError::InvalidOptionsCount);
    }
    let mut i: usize = 0;
    while i < n_options
        invariant
            n_options == options@.len(),
            i <= n_options,
            1 <= text_len(title@) && text_len(title@) <= 100,
            text_len(description@) <= 500,
            2 <= options@.len() && options@.len() <= 10,
            forall|j: int|
                0 <= j < i ==> 1 <= text_len((#[trigger] options@[j])@) && text_len(
                    options@[j]@,
                ) <= 50,
        decreases n_options - i,
    {
        let label_len = byte_len(&options[i]);
        if !(1 <= label_len && label_len <= 50) {
            proof {
                let j = i as int;
                assert(0 <= j < options@.len() && !(1 <= text_len(options@[j]@) && text_len(
                    options@[j]@,
                ) <= 50));
            }
            return Err(VoteError::InvalidOptionLength);
        }
        i += 1;
    }
    if !(end_time > now) {
        return Err(VoteError::InvalidEndTime);
    }

    let mut vote_counts: Vec<u32> = Vec::new();
    let mut k: usize = 0;
    while k < n_options
        invariant
            k <= n_options,
            vote_counts@.len() == k,
            forall|j: int| 0 <= j < k ==> vote_counts@[j] == 0,
            tally_sum(vote_counts@) == 0,
        decreases n_options - k,
    {
        proof {
            lemma_tally_sum_push(vote_counts@, 0u32);
        }
        vote_counts.push(0);
        k += 1;
    }

    let event_title = title.clone();
    let vote = Vote {
        authority,
        title,
        description,
        options,
        vote_counts,
        total_votes: 0,
        created_at: now,
        end_time,
        is_active: true,
    };
    let event = VoteCreated { vote: vote_addr, title: event_title, authority };
    Ok((vote, event))
}

/// The first failing Cast precondition, if any.  The checks run in order:
/// the poll is still active, the deadline has not passed, the option index
/// is in range, this voter's ballot is still unused, and neither the chosen
/// counter nor the total would overflow.
pub open spec fn cast_vote_err(v: Vote, b: VoterRecord, option_index: u8, now: i64) -> Option<
    VoteError,
> {
    if !v.is_active {
        Some(VoteError::VoteEnded)
    } else if now > v.end_time {
        Some(VoteError::VotingPeriodEnded)
    } else if v.options@.len() <= option_index {
        Some(VoteError::InvalidOptionIndex)
    } else if b.has_voted {
        Some(VoteError::AlreadyVoted)
    } else if v.vote_counts@[option_index as int] == u32::MAX || v.total_votes == u32::MAX {
        Some(VoteError::Overflow)
    } else {
        None
    }
}

/// Casts `voter`'s ballot in the poll at `vote_addr`: marks the ballot slot
/// used and increments the chosen counter and the total, all checked before
/// anything is written.  `voter_record` is the slot the runtime resolved at
/// the address derived from `(vote_addr, voter)` — a fresh slot if this pair
/// never voted.  On any failure both records are left exactly as they were.
pub fn cast_vote(
    vote: &mut Vote,
    voter_record: &mut VoterRecord,
    vote_addr: Identity,
    voter: Identity,
    option_index: u8,
    now: i64,
) -> (r: Result<VoteCast, VoteError>)
    requires
        old(vote).wf(),
    ensures
        final(vote).wf(),
        ({
            let e = cast_vote_err(*old(vote), *old(voter_record), option_index, now);
            match r {
                Err(err) => {
                    &&& e == Some(err)
                    &&& *final(vote) == *old(vote)
                    &&& *final(voter_record) == *old(voter_record)
                },
                Ok(ev) => {
                    &&& e is None
                    &&& ev == (VoteCast { vote: vote_addr, voter, option_index })
                    &&& *final(voter_record) == (VoterRecord {
                        voter,
                        vote: vote_addr,
                        option_index,
                        has_voted: true,
                        voted_at: now,
                    })
                    &&& final(vote).vote_counts@ == old(vote).vote_counts@.update(
                        option_index as int,
                        (old(vote).vote_counts@[option_index as int] + 1) as u32,
                    )
                    &&& final(vote).total_votes == old(vote).total_votes + 1
                    &&& final(vote).authority == old(vote).authority
                    &&& final(vote).title == old(vote).title
                    &&& final(vote).description == old(vote).description
                    &&& final(vote).options == old(vote).options
                    &&& final(vote).created_at == old(vote).created_at
                    &&& final(vote).end_time == old(vote).end_time
                    &&& final(vote).is_active == old(vote).is_active
                },
            }
        }),
{
    if !vote.is_active {
        return Err(VoteError::VoteEnded);
    }
    if now > vote.end_time {
        return Err(VoteError::VotingPeriodEnded);
    }
    if !((option_index as usize) < vote.options.len()) {
        return Err(VoteError::InvalidOptionIndex);
    }
    if voter_record.has_voted {
        return Err(VoteError::AlreadyVoted);
    }

    let idx = option_index as usize;
    let new_count = match vote.vote_counts[idx].checked_add(1) {
        Some(c) => c,
        None => {
            return Err(VoteError::Overflow);
        },
    };
    let new_total = match vote.total_votes.checked_add(1) {
        Some(t) => t,
        None => {
            return Err(VoteError::Overflow);
        },
    };

    voter_record.voter = voter;
    voter_record.vote = vote_addr;
    voter_record.option_index = option_index;
    voter_record.has_voted = true;
    voter_record.voted_at = now;

    proof {
        lemma_tally_sum_update(vote.vote_counts@, idx as int, new_count);
    }
    vote.vote_counts[idx] = new_count;
    vote.total_votes = new_total;

    Ok(VoteCast { vote: vote_addr, voter, option_index })
}

/// The first failing Close precondition, if any: only the recorded
/// authority may close, and only a still-active poll can be closed.
pub open spec fn end_vote_err(v: Vote, caller: Identity) -> Option<VoteError> {
    if caller != v.authority {
        Some(VoteError::Unauthorized)
    } else if !v.is_active {
        Some(VoteError::VoteAlreadyEnded)
    } else {
        None
    }
}

/// Closes the poll at `vote_addr` early: deactivates it and freezes its
/// deadline at the closing time.  The caller has been authenticated as
/// `authority`; if it is not the poll's recorded authority, or the poll was
/// already closed, the record is left exactly as it was.
pub fn end_vote(vote: &mut Vote, vote_addr: Identity, authority: Identity, now: i64) -> (r: Result<
    VoteEnded,
    VoteError,
>)
    requires
        old(vote).wf(),
    ensures
        final(vote).wf(),
        ({
            let e = end_vote_err(*old(vote), authority);
            match r {
                Err(err) => {
                    &&& e == Some(err)
                    &&& *final(vote) == *old(vote)
                },
                Ok(ev) => {
                    &&& e is None
                    &&& ev == (VoteEnded { vote: vote_addr, total_votes: old(vote).total_votes })
                    &&& final(vote).is_active == false
                    &&& final(vote).end_time == now
                    &&& final(vote).authority == old(vote).authority
                    &&& final(vote).title == old(vote).title
                    &&& final(vote).description == old(vote).description
                    &&& final(vote).options == old(vote).options
                    &&& final(vote).vote_counts == old(vote).vote_counts
                    &&& final(vote).total_votes == old(vote).total_votes
                    &&& final(vote).created_at == old(vote).created_at
                },
            }
        }),
{
    if !(authority == vote.authority) {
        return Err(VoteError::Unauthorized);
    }
    if !vote.is_active {
        return Err(VoteError::VoteAlreadyEnded);
    }

    vote.is_active = false;
    vote.end_time = now;

    Ok(VoteEnded { vote: vote_addr, total_votes: vote.total_votes })
}

/// One row of the Stats projection: an option's label and its count.
///
/// The percentage of the total is a display concern left to the
/// presentation layer, which computes it from `count` and the report's
/// `total_votes`.
#[derive(Debug)]
pub struct OptionStat {
    pub label: String,
    pub count: u32,
}

/// The Stats projection of one poll.
#[derive(Debug)]
pub struct VoteStats {
    pub total_votes: u32,
    pub options: Vec<OptionStat>,
}

/// Read-only projection of the current tallies: one `(label, count)` row
/// per option, in option order, plus the total.  The poll is not touched.
pub fn get_vote_stats(vote: &Vote) -> (r: VoteStats)
    requires
        vote.wf(),
    ensures
        r.total_votes == vote.total_votes,
        r.options@.len() == vote.options@.len(),
        forall|i: int|
            0 <= i < r.options@.len() ==> (#[trigger] r.options@[i]).label@ == vote.options@[i]@
                && r.options@[i].count == vote.vote_counts@[i],
{
    let n = vote.options.len();
    let mut rows: Vec<OptionStat> = Vec::new();
    let mut i: usize = 0;
    while i < n
        invariant
            n == vote.options@.len(),
            vote.wf(),
            i <= n,
            rows@.len() == i,
            forall|j: int|
                0 <= j < i ==> (#[trigger] rows@[j]).label@ == vote.options@[j]@ && rows@[j].count
                    == vote.vote_counts@[j],
        decreases n - i,
    {
        let label = vote.options[i].clone();
        let count = vote.vote_counts[i];
        rows.push(OptionStat { label, count });
        i += 1;
    }
    VoteStats { total_votes: vote.total_votes, options: rows }
}

} // verus!
