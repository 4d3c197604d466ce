use vstd::prelude::*;

verus! {

/// The discriminated failure kinds of the four operations.
///
/// Every operation either fully commits or has no effect; a failure names
/// exactly one of these kinds and nothing else is surfaced to the caller.
#[derive(Clone, Copy, Debug, PartialEq, Eq, Structural)]
pub enum VoteError {
    /// Title must be between 1 and 100 bytes.
    InvalidTitleLength,
    /// Description must be at most 500 bytes.
    InvalidDescriptionLength,
    /// A poll must offer between 2 and 10 options.
    InvalidOptionsCount,
    /// Every option label must be between 1 and 50 bytes.
    InvalidOptionLength,
    /// The deadline must lie strictly in the future at creation.
    InvalidEndTime,
    /// The poll has been closed.
    VoteEnded,
    /// The poll's deadline has passed.
    VotingPeriodEnded,
    /// The chosen option index is out of range.
    InvalidOptionIndex,
    /// This voter already holds a ballot in this poll.
    AlreadyVoted,
    /// Only the poll's authority may close it.
    Unauthorized,
    /// The poll was already closed.
    VoteAlreadyEnded,
    /// A tally counter would exceed its representable range.
    Overflow,
    /// A poll at the derived address already exists.
    DuplicatePoll,
    /// No poll exists at the given address.
    PollNotFound,
}

} // verus!
