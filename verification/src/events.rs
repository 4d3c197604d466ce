use vstd::prelude::*;

use crate::records::Identity;

verus! {

/// Notification that a poll was created; the runtime appends it to the
/// event channel.
#[derive(Debug)]
pub struct VoteCreated {
    /// Derived address of the new poll.
    pub vote: Identity,
    /// The poll's title.
    pub title: String,
    /// The creator, recorded as the poll's authority.
    pub authority: Identity,
}

/// Notification that a ballot was cast.
#[derive(Clone, Copy, Debug, PartialEq, Eq, Structural)]
pub struct VoteCast {
    /// Address of the poll voted in.
    pub vote: Identity,
    /// The caster.
    pub voter: Identity,
    /// The chosen option, 0-based.
    pub option_index: u8,
}

/// Notification that a poll was closed by its authority.
#[derive(Clone, Copy, Debug, PartialEq, Eq, Structural)]
pub struct VoteEnded {
    /// Address of the closed poll.
    pub vote: Identity,
    /// The final total at closing time.
    pub total_votes: u32,
}

} // verus!
