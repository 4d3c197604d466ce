use vstd::prelude::*;

use crate::errors::VoteError;
use crate::events::VoteCast;
use crate::events::VoteCreated;
use crate::events::VoteEnded;
use crate::ops::VoteStats;
use crate::ops::cast_vote;
use crate::ops::cast_vote_err;
use crate::ops::create_vote;
use crate::ops::create_vote_err;
use crate::ops::end_vote;
use crate::ops::end_vote_err;
use crate::ops::get_vote_stats;
use crate::records::Identity;
use crate::records::Vote;
use crate::records::VoterRecord;

verus! {

/// No two entries of an association list share a key.
pub open spec fn distinct_keys<K, V>(s: Seq<(K, V)>) -> bool {
    forall|i: int, j: int|
        0 <= i < j < s.len() ==> (#[trigger] s[i]).0 != (#[trigger] s[j]).0
}

/// Some entry of the association list has this key.
pub open spec fn has_key<K, V>(s: Seq<(K, V)>, k: K) -> bool {
    exists|i: int| 0 <= i < s.len() && (#[trigger] s[i]).0 == k
}

/// The value stored under a key; meaningful when `has_key` holds and the
/// keys are distinct.
pub open spec fn value_at<K, V>(s: Seq<(K, V)>, k: K) -> V {
    s[choose|i: int| 0 <= i < s.len() && (#[trigger] s[i]).0 == k].1
}

/// With distinct keys, the entry at any index is the one `value_at` finds
/// under its key.
pub proof fn lemma_value_at<K, V>(s: Seq<(K, V)>, i: int)
    requires
        distinct_keys(s),
        0 <= i < s.len(),
    ensures
        has_key(s, s[i].0),
        value_at(s, s[i].0) == s[i].1,
{
    let k = s[i].0;
    assert(has_key(s, k));
    let c = choose|j: int| 0 <= j < s.len() && (#[trigger] s[j]).0 == k;
    if c < i {
        assert(s[c].0 != s[i].0);
    } else if i < c {
        assert(s[i].0 != s[c].0);
    }
}

/// How many ballots in the store belong to the poll at `addr`.
pub open spec fn ballots_for(ballots: Seq<((Identity, Identity), VoterRecord)>, addr: Identity) -> int
    decreases ballots.len(),
{
    if ballots.len() == 0 {
        0
    } else {
        ballots_for(ballots.drop_last(), addr) + if ballots.last().0.0 == addr {
            1int
        } else {
            0int
        }
    }
}

pub proof fn lemma_ballots_for_push(
    ballots: Seq<((Identity, Identity), VoterRecord)>,
    e: ((Identity, Identity), VoterRecord),
)
    ensures
        forall|a: Identity|
            #[trigger] ballots_for(ballots.push(e), a) == ballots_for(ballots, a) + if e.0.0 == a {
                1int
            } else {
                0int
            },
{
    assert(ballots.push(e).drop_last() =~= ballots);
}

pub proof fn lemma_ballots_for_none(
    ballots: Seq<((Identity, Identity), VoterRecord)>,
    addr: Identity,
)
    requires
        forall|i: int| 0 <= i < ballots.len() ==> (#[trigger] ballots[i]).0.0 != addr,
    ensures
        ballots_for(ballots, addr) == 0,
    decreases ballots.len(),
{
    if ballots.len() > 0 {
        let pre = ballots.drop_last();
        assert forall|i: int| 0 <= i < pre.len() implies (#[trigger] pre[i]).0.0 != addr by {
            assert(pre[i] == ballots[i]);
        }
        lemma_ballots_for_none(pre, addr);
    }
}

/// A stored ballot entry is internally consistent: the record repeats the
/// key it is stored under, and a stored ballot is always a used one — a
/// ballot record only ever comes into existence through a successful cast.
pub open spec fn ballot_entry_ok(e: ((Identity, Identity), VoterRecord)) -> bool {
    &&& e.1.vote == e.0.0
    &&& e.1.voter == e.0.1
    &&& e.1.has_voted
}

/// The two record stores: polls addressed by their derived identity, and
/// ballots addressed by the pair (poll address, voter).
///
/// The runtime's deterministic address derivation is what makes the keys
/// collision-free; here the stores are explicit association lists with
/// distinct keys, the equivalent index structure.
pub struct Ledger {
    pub polls: Vec<(Identity, Vote)>,
    pub ballots: Vec<((Identity, Identity), VoterRecord)>,
}

impl Ledger {
    /// The store invariant, preserved by every operation:
    /// - poll addresses and ballot keys are unique;
    /// - every poll record is well-formed (which includes tally
    ///   conservation, `total_votes == tally_sum(vote_counts)`);
    /// - every ballot is consistent with its key, is marked used, refers to
    ///   an existing poll, and picks an option that poll really offers;
    /// - every poll's `total_votes` equals the number of ballots that refer
    ///   to it.
    pub open spec fn wf(self) -> bool {
        &&& distinct_keys(self.polls@)
        &&& distinct_keys(self.ballots@)
        &&& forall|i: int| 0 <= i < self.polls@.len() ==> (#[trigger] self.polls@[i]).1.wf()
        &&& forall|i: int|
            0 <= i < self.ballots@.len() ==> ballot_entry_ok(#[trigger] self.ballots@[i])
        &&& forall|i: int|
            0 <= i < self.ballots@.len() ==> has_key(
                self.polls@,
                (#[trigger] self.ballots@[i]).0.0,
            )
        &&& forall|i: int, j: int|
            0 <= i < self.ballots@.len() && 0 <= j < self.polls@.len()
                && (#[trigger] self.ballots@[i]).0.0 == (#[trigger] self.polls@[j]).0
                ==> self.ballots@[i].1.option_index < self.polls@[j].1.options@.len()
        &&& forall|j: int|
            0 <= j < self.polls@.len() ==> (#[trigger] self.polls@[j]).1.total_votes
                == ballots_for(self.ballots@, self.polls@[j].0)
    }

    /// Create: validates the inputs, then allocates a poll record at
    /// `vote_addr`, the address the runtime derived from
    /// `(authority, title)`.  Validation runs in full before the store is
    /// touched; an occupied address then fails with `DuplicatePoll`.  On
    /// any failure the ledger is unchanged and no notification exists.
    pub fn create(
        &mut self,
        vote_addr: Identity,
        authority: Identity,
        title: String,
        description: String,
        options: Vec<String>,
        end_time: i64,
        now: i64,
    ) -> (r: Result<VoteCreated, VoteError>)
        requires
            old(self).wf(),
        ensures
            final(self).wf(),
            ({
                let e = create_vote_err(title@, description@, options@, end_time, now);
                match r {
                    Err(err) => {
                        &&& final(self).polls@ == old(self).polls@
                        &&& final(self).ballots@ == old(self).ballots@
                        &&& (e is Some || has_key(old(self).polls@, vote_addr))
                        &&& err == (if e is Some {
                            e->0
                        } else {
                            VoteError::DuplicatePoll
                        })
                    },
                    Ok(ev) => {
                        &&& e is None
                        &&& !has_key(old(self).polls@, vote_addr)
                        &&& ev.vote == vote_addr
                        &&& ev.title@ == title@
                        &&& ev.authority == authority
                        &&& final(self).ballots@ == old(self).ballots@
                        &&& final(self).polls@.len() == old(self).polls@.len() + 1
                        &&& final(self).polls@.drop_last() == old(self).polls@
                        &&& final(self).polls@.last().0 == vote_addr
                        &&& ({
                            let v = final(self).polls@.last().1;
                            &&& v.wf()
                            &&& v.authority == authority
                            &&& v.title@ == title@
                            &&& v.description@ == description@
                            &&& v.options == options
                            &&& v.vote_counts@.len() == options@.len()
                            &&& forall|i: int|
                                0 <= i < v.vote_counts@.len() ==> v.vote_counts@[i] == 0
                            &&& v.total_votes == 0
                            &&& v.created_at == now
                            &&& v.end_time == end_time
                            &&& v.is_active == true
                        })
                    },
                }
            }),
    {
        let built = match create_vote(vote_addr, authority, title, description, options, end_time, now) {
            Ok(built) => built,
            Err(err) => {
                return Err(err);
            },
        };
        let (vote, event) = built;
        if find_poll(&self.polls, vote_addr).is_some() {
            return Err(VoteError::DuplicatePoll);
        }
        proof {
            assert forall|i: int| 0 <= i < old(self).ballots@.len() implies (#[trigger] old(
                self,
            ).ballots@[i]).0.0 != vote_addr by {
                assert(has_key(old(self).polls@, old(self).ballots@[i].0.0));
            }
            lemma_ballots_for_none(old(self).ballots@, vote_addr);
        }
        self.polls.push((vote_addr, vote));
        proof {
            assert(self.polls@.drop_last() =~= old(self).polls@);
        }
        Ok(event)
    }

    /// Cast: `voter`'s single vote in the poll at `vote_addr`.  The checks
    /// and the mutation are one atomic unit: the poll must exist and be
    /// active, the deadline must not have passed, the option must exist,
    /// this pair's ballot slot must be unused, and the counters must not
    /// overflow — only then are the ballot recorded and the tally bumped.
    /// On any failure the ledger is unchanged.
    pub fn cast(
        &mut self,
        vote_addr: Identity,
        voter: Identity,
        option_index: u8,
        now: i64,
    ) -> (r: Result<VoteCast, VoteError>)
        requires
            old(self).wf(),
        ensures
            final(self).wf(),
            ({
                let e = ledger_cast_err(*old(self), vote_addr, voter, option_index, now);
                match r {
                    Err(err) => {
                        &&& e == Some(err)
                        &&& final(self).polls@ == old(self).polls@
                        &&& final(self).ballots@ == old(self).ballots@
                    },
                    Ok(ev) => {
                        &&& e is None
                        &&& ev == (VoteCast { vote: vote_addr, voter, option_index })
                        &&& final(self).ballots@ == old(self).ballots@.push(
                            (
                                (vote_addr, voter),
                                VoterRecord {
                                    voter,
                                    vote: vote_addr,
                                    option_index,
                                    has_voted: true,
                                    voted_at: now,
                                },
                            ),
                        )
                        &&& final(self).polls@.len() == old(self).polls@.len()
                        &&& forall|i: int|
                            0 <= i < old(self).polls@.len()
                                ==> (#[trigger] final(self).polls@[i]).0 == old(self).polls@[i].0
                        &&& forall|i: int|
                            0 <= i < old(self).polls@.len()
                                && (#[trigger] old(self).polls@[i]).0 != vote_addr
                                ==> final(self).polls@[i] == old(self).polls@[i]
                        &&& has_key(final(self).polls@, vote_addr)
                        &&& ({
                            let v = value_at(old(self).polls@, vote_addr);
                            let nv = value_at(final(self).polls@, vote_addr);
                            &&& nv.vote_counts@ == v.vote_counts@.update(
                                option_index as int,
                                (v.vote_counts@[option_index as int] + 1) as u32,
                            )
                            &&& nv.total_votes == v.total_votes + 1
                            &&& nv.authority == v.authority
                            &&& nv.title == v.title
                            &&& nv.description == v.description
                            &&& nv.options == v.options
                            &&& nv.created_at == v.created_at
                            &&& nv.end_time == v.end_time
                            &&& nv.is_active == v.is_active
                        })
                    },
                }
            }),
    {
        let p = match find_poll(&self.polls, vote_addr) {
            Some(p) => p,
            None => {
                return Err(VoteError::VoteEnded);
            },
        };
        let mut ballot = match find_ballot(&self.ballots, vote_addr, voter) {
            Some(bi) => self.ballots[bi].1,
            None => VoterRecord {
                voter,
                vote: vote_addr,
                option_index: 0,
                has_voted: false,
                voted_at: 0,
            },
        };
        proof {
            lemma_value_at(self.polls@, p as int);
            if has_key(self.ballots@, (vote_addr, voter)) {
                let c = choose|j: int|
                    0 <= j < self.ballots@.len() && (#[trigger] self.ballots@[j]).0 == (
                    vote_addr,
                    voter,
                    );
                lemma_value_at(self.ballots@, c);
            }
            assert(ballot == cast_target_ballot(*old(self), vote_addr, voter));
        }
        let entry = &mut self.polls[p];
        let res = cast_vote(&mut entry.1, &mut ballot, vote_addr, voter, option_index, now);
        match res {
            Err(err) => {
                proof {
                    assert(self.polls@ =~= old(self).polls@);
                }
                Err(err)
            },
            Ok(ev) => {
                proof {
                    assert(!has_key(old(self).ballots@, (vote_addr, voter)));
                    lemma_ballots_for_push(
                        old(self).ballots@,
                        (
                            (vote_addr, voter),
                            VoterRecord {
                                voter,
                                vote: vote_addr,
                                option_index,
                                has_voted: true,
                                voted_at: now,
                            },
                        ),
                    );
                }
                self.ballots.push(((vote_addr, voter), ballot));
                proof {
                    assert forall|j: int| 0 <= j < self.polls@.len() implies (#[trigger] self
                        .polls@[j]).1.total_votes == ballots_for(self.ballots@, self.polls@[j].0) by {
                        if j != p as int {
                            assert(old(self).polls@[j].0 != vote_addr);
                        }
                    }
                    assert forall|i: int| 0 <= i < self.ballots@.len() implies has_key(
                        self.polls@,
                        (#[trigger] self.ballots@[i]).0.0,
                    ) by {
                        if i < old(self).ballots@.len() {
                            let a = old(self).ballots@[i].0.0;
                            let w = choose|j: int|
                                0 <= j < old(self).polls@.len() && (#[trigger] old(
                                    self,
                                ).polls@[j]).0 == a;
                            assert(self.polls@[w].0 == a);
                        } else {
                            assert(self.polls@[p as int].0 == vote_addr);
                        }
                    }
                    lemma_value_at(self.polls@, p as int);
                }
                Ok(ev)
            },
        }
    }

    /// Close: authority-gated early termination of the poll at
    /// `vote_addr`.  Only the recorded authority may close, only once; the
    /// poll is deactivated and its deadline frozen at the closing time.
    /// On any failure the ledger is unchanged.
    pub fn close(&mut self, vote_addr: Identity, caller: Identity, now: i64) -> (r: Result<
        VoteEnded,
        VoteError,
    >)
        requires
            old(self).wf(),
        ensures
            final(self).wf(),
            ({
                let e = ledger_close_err(*old(self), vote_addr, caller);
                match r {
                    Err(err) => {
                        &&& e == Some(err)
                        &&& final(self).polls@ == old(self).polls@
                        &&& final(self).ballots@ == old(self).ballots@
                    },
                    Ok(ev) => {
                        &&& e is None
                        &&& ev == (VoteEnded {
                            vote: vote_addr,
                            total_votes: value_at(old(self).polls@, vote_addr).total_votes,
                        })
                        &&& final(self).ballots@ == old(self).ballots@
                        &&& final(self).polls@.len() == old(self).polls@.len()
                        &&& forall|i: int|
                            0 <= i < old(self).polls@.len()
                                ==> (#[trigger] final(self).polls@[i]).0 == old(self).polls@[i].0
                        &&& forall|i: int|
                            0 <= i < old(self).polls@.len()
                                && (#[trigger] old(self).polls@[i]).0 != vote_addr
                                ==> final(self).polls@[i] == old(self).polls@[i]
                        &&& has_key(final(self).polls@, vote_addr)
                        &&& ({
                            let v = value_at(old(self).polls@, vote_addr);
                            let nv = value_at(final(self).polls@, vote_addr);
                            &&& nv.is_active == false
                            &&& nv.end_time == now
                            &&& nv.authority == v.authority
                            &&& nv.title == v.title
                            &&& nv.description == v.description
                            &&& nv.options == v.options
                            &&& nv.vote_counts == v.vote_counts
                            &&& nv.total_votes == v.total_votes
                            &&& nv.created_at == v.created_at
                        })
                    },
                }
            }),
    {
        let p = match find_poll(&self.polls, vote_addr) {
            Some(p) => p,
            None => {
                return Err(VoteError::PollNotFound);
            },
        };
        proof {
            lemma_value_at(self.polls@, p as int);
        }
        let entry = &mut self.polls[p];
        let res = end_vote(&mut entry.1, vote_addr, caller, now);
        match res {
            Err(err) => {
                proof {
                    assert(self.polls@ =~= old(self).polls@);
                }
                Err(err)
            },
            Ok(ev) => {
                proof {
                    assert forall|j: int| 0 <= j < self.polls@.len() implies (#[trigger] self
                        .polls@[j]).1.total_votes == ballots_for(self.ballots@, self.polls@[j].0) by {
                        if j != p as int {
                            assert(self.polls@[j] == old(self).polls@[j]);
                        }
                    }
                    assert forall|i: int| 0 <= i < self.ballots@.len() implies has_key(
                        self.polls@,
                        (#[trigger] self.ballots@[i]).0.0,
                    ) by {
                        let a = self.ballots@[i].0.0;
                        let w = choose|j: int|
                            0 <= j < old(self).polls@.len() && (#[trigger] old(
                                self,
                            ).polls@[j]).0 == a;
                        assert(self.polls@[w].0 == a);
                    }
                    lemma_value_at(self.polls@, p as int);
                }
                Ok(ev)
            },
        }
    }

    /// Stats: the read-only projection of the poll at `vote_addr` — one
    /// `(label, count)` row per option plus the total.  The ledger is not
    /// mutated.
    pub fn stats(&self, vote_addr: Identity) -> (r: Result<VoteStats, VoteError>)
        requires
            self.wf(),
        ensures
            match r {
                Err(err) => {
                    &&& err == VoteError::PollNotFound
                    &&& !has_key(self.polls@, vote_addr)
                },
                Ok(st) => {
                    &&& has_key(self.polls@, vote_addr)
                    &&& ({
                        let v = value_at(self.polls@, vote_addr);
                        &&& st.total_votes == v.total_votes
                        &&& st.options@.len() == v.options@.len()
                        &&& forall|i: int|
                            0 <= i < st.options@.len() ==> (#[trigger] st.options@[i]).label@
                                == v.options@[i]@ && st.options@[i].count == v.vote_counts@[i]
                    })
                },
            },
    {
        match find_poll(&self.polls, vote_addr) {
            None => Err(VoteError::PollNotFound),
            Some(p) => {
                proof {
                    lemma_value_at(self.polls@, p as int);
                }
                Ok(get_vote_stats(&self.polls[p].1))
            },
        }
    }

    /// An empty ledger: no polls, no ballots.
    pub fn new() -> (r: Ledger)
        ensures
            r.wf(),
            r.polls@.len() == 0,
            r.ballots@.len() == 0,
    {
        Ledger { polls: Vec::new(), ballots: Vec::new() }
    }
}

/// Linear lookup of a poll by address: the explicit form of the runtime's
/// O(1) address resolution.
fn find_poll(polls: &Vec<(Identity, Vote)>, addr: Identity) -> (r: Option<usize>)
    ensures
        match r {
            Some(i) => i < polls@.len() && polls@[i as int].0 == addr,
            None => !has_key(polls@, addr),
        },
{
    let n = polls.len();
    let mut i: usize = 0;
    while i < n
        invariant
            n == polls@.len(),
            i <= n,
            forall|j: int| 0 <= j < i ==> (#[trigger] polls@[j]).0 != addr,
        decreases n - i,
    {
        if polls[i].0 == addr {
            return Some(i);
        }
        i += 1;
    }
    None
}

/// Linear lookup of a ballot by its (poll address, voter) key.
fn find_ballot(
    ballots: &Vec<((Identity, Identity), VoterRecord)>,
    addr: Identity,
    voter: Identity,
) -> (r: Option<usize>)
    ensures
        match r {
            Some(i) => i < ballots@.len() && ballots@[i as int].0 == (addr, voter),
            None => !has_key(ballots@, (addr, voter)),
        },
{
    let n = ballots.len();
    let mut i: usize = 0;
    while i < n
        invariant
            n == ballots@.len(),
            i <= n,
            forall|j: int| 0 <= j < i ==> (#[trigger] ballots@[j]).0 != (addr, voter),
        decreases n - i,
    {
        let k = ballots[i].0;
        if k.0 == addr && k.1 == voter {
            return Some(i);
        }
        i += 1;
    }
    None
}

/// The ballot slot a Cast addresses: the stored record if this pair has
/// one, else the fresh zeroed slot the runtime would allocate.
pub open spec fn cast_target_ballot(l: Ledger, vote_addr: Identity, voter: Identity) -> VoterRecord {
    if has_key(l.ballots@, (vote_addr, voter)) {
        value_at(l.ballots@, (vote_addr, voter))
    } else {
        VoterRecord { voter, vote: vote_addr, option_index: 0, has_voted: false, voted_at: 0 }
    }
}

/// The failure a Cast against the ledger reports, if any.  A missing poll
/// fails like a closed one; otherwise the record-level checks decide.
pub open spec fn ledger_cast_err(
    l: Ledger,
    vote_addr: Identity,
    voter: Identity,
    option_index: u8,
    now: i64,
) -> Option<VoteError> {
    if !has_key(l.polls@, vote_addr) {
        Some(VoteError::VoteEnded)
    } else {
        cast_vote_err(
            value_at(l.polls@, vote_addr),
            cast_target_ballot(l, vote_addr, voter),
            option_index,
            now,
        )
    }
}

/// The failure a Close against the ledger reports, if any.
pub open spec fn ledger_close_err(l: Ledger, vote_addr: Identity, caller: Identity) -> Option<
    VoteError,
> {
    if !has_key(l.polls@, vote_addr) {
        Some(VoteError::PollNotFound)
    } else {
        end_vote_err(value_at(l.polls@, vote_addr), caller)
    }
}

} // verus!
