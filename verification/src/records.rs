use vstd::prelude::*;

verus! {

broadcast use vstd::slice::group_slice_axioms;


/// An opaque caller or record identity.
///
/// The runtime authenticates callers and derives record addresses; the core
/// only ever compares identities for equality, so an identity is modelled as
/// a plain token.
#[derive(Clone, Copy, Debug, PartialEq, Eq, Hash, Structural)]
pub struct Identity {
    pub id: u128,
}

/// Length in bytes of a text value, under UTF-8.  All bounds on titles,
/// descriptions and option labels are stated in bytes.
pub open spec fn text_len(s: Seq<char>) -> nat {
    vstd::utf8::encode_utf8(s).len()
}

/// Byte length of a string, tied to `text_len` of its view.
pub fn byte_len(s: &String) -> (n: usize)
    ensures
        n == text_len(s@),
{
    s.as_str().as_bytes().len()
}

/// Sum of a tally: the total number of votes the counters account for.
pub open spec fn tally_sum(s: Seq<u32>) -> int
    decreases s.len(),
{
    if s.len() == 0 {
        0
    } else {
        tally_sum(s.drop_last()) + s.last()
    }
}

pub proof fn lemma_tally_sum_push(s: Seq<u32>, x: u32)
    ensures
        tally_sum(s.push(x)) == tally_sum(s) + x,
{
    assert(s.push(x).drop_last() =~= s);
}

pub proof fn lemma_tally_sum_update(s: Seq<u32>, i: int, x: u32)
    requires
        0 <= i < s.len(),
    ensures
        tally_sum(s.update(i, x)) == tally_sum(s) - s[i] + x,
    decreases s.len(),
{
    let t = s.update(i, x);
    if i == s.len() - 1 {
        assert(t.drop_last() =~= s.drop_last());
    } else {
        assert(t.drop_last() =~= s.drop_last().update(i, x));
        assert(t.last() == s.last());
        lemma_tally_sum_update(s.drop_last(), i, x);
    }
}

/// One poll: its immutable description and its mutable tally and liveness.
#[derive(Debug)]
pub struct Vote {
    /// Identity of the creator; only this identity may close the poll.
    pub authority: Identity,
    /// Bounded title; together with `authority` it determines the poll's
    /// derived address.
    pub title: String,
    /// Bounded free-form description.
    pub description: String,
    /// The ordered option labels, each bounded.
    pub options: Vec<String>,
    /// One counter per option, index-aligned with `options`.
    pub vote_counts: Vec<u32>,
    /// Sum of `vote_counts` at all times.
    pub total_votes: u32,
    /// Ledger time at creation.
    pub created_at: i64,
    /// Deadline; casting after it fails.  Closing freezes it at the closing
    /// time.
    pub end_time: i64,
    /// True from creation until the poll is closed, then false forever.
    pub is_active: bool,
}

/// Storage taken by the option labels: a length prefix plus the bytes of
/// each label.
pub open spec fn options_space(options: Seq<String>) -> int
    decreases options.len(),
{
    if options.len() == 0 {
        0
    } else {
        options_space(options.drop_last()) + 4 + text_len(options.last()@)
    }
}

/// Storage taken by a whole poll record with these fields: the fixed part
/// plus a length-prefixed title, description, label list and counter list.
pub open spec fn record_space(title: Seq<char>, description: Seq<char>, options: Seq<String>) -> int {
    Vote::INIT_SPACE + 4 + text_len(title) + 4 + text_len(description) + 4 + options_space(options)
        + 4 + options.len() * 4
}

impl Vote {
    /// Storage taken by the fixed-width fields of a poll record.
    pub const INIT_SPACE: usize = 8 + 32 + 8 + 8 + 8 + 1 + 1;

    /// Bytes to allocate for a poll record built from these inputs.  The
    /// inputs are bounded as Create validates them, which keeps every
    /// partial sum far below `usize::MAX`.
    pub fn space(title: &str, description: &str, options: &[String]) -> (r: usize)
        requires
            text_len(title@) <= 100,
            text_len(description@) <= 500,
            options@.len() <= 10,
            forall|i: int| 0 <= i < options@.len() ==> text_len((#[trigger] options@[i])@) <= 50,
        ensures
            r == record_space(title@, description@, options@),
    {
        let n = options.len();
        let mut label_space: usize = 0;
        let mut k: usize = 0;
        while k < n
            invariant
                n == options@.len(),
                k <= n,
                n <= 10,
                forall|i: int| 0 <= i < options@.len() ==> text_len((#[trigger] options@[i])@)
                    <= 50,
                label_space == options_space(options@.take(k as int)),
                label_space <= k * 54,
            decreases n - k,
        {
            let l = byte_len(&options[k]);
            proof {
                assert(options@.take(k + 1).drop_last() =~= options@.take(k as int));
            }
            label_space = label_space + 4 + l;
            k += 1;
        }
        proof {
            assert(options@.take(n as int) =~= options@);
        }
        Vote::INIT_SPACE + 4 + title.len() + 4 + description.len() + 4 + label_space + 4 + n * 4
    }

    /// Well-formedness of a poll record: the bounds enforced at creation and
    /// the tally conservation invariant.  Established by `create_vote` and
    /// preserved by every operation.
    pub open spec fn wf(self) -> bool {
        &&& 1 <= text_len(self.title@) <= 100
        &&& text_len(self.description@) <= 500
        &&& 2 <= self.options@.len() <= 10
        &&& forall|i: int|
            0 <= i < self.options@.len() ==> 1 <= text_len(#[trigger] self.options@[i]@) <= 50
        &&& self.vote_counts@.len() == self.options@.len()
        &&& self.total_votes == tally_sum(self.vote_counts@)
    }
}

/// One ballot: proof that `voter` has voted in the poll at address `vote`.
///
/// The runtime derives the ballot's address from `(poll, voter)`, so at most
/// one ballot per pair can ever exist; a fresh slot starts with
/// `has_voted == false` and `cast_vote` flips it exactly once.
#[derive(Clone, Copy, Debug, PartialEq, Eq, Structural)]
pub struct VoterRecord {
    /// Identity of the caster.
    pub voter: Identity,
    /// Address of the poll this ballot belongs to.
    pub vote: Identity,
    /// The chosen option, 0-based.
    pub option_index: u8,
    /// Set exactly once, by a successful cast.
    pub has_voted: bool,
    /// Ledger time of the cast.
    pub voted_at: i64,
}

} // verus!
