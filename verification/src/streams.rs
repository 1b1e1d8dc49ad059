//! The decisions of a set of streams that are polled as one.
//!
//! The set itself holds the streams and polls them; what it does with the outcome of
//! a poll is decided here, over the number of its members.

use vstd::prelude::*;

verus! {

/// What polling the members of a set gave.
#[derive(Clone, Copy, Debug, PartialEq, Eq)]
pub enum Polled {
    /// No member is ready.
    Pending,
    /// A member gave an item.
    Item,
    /// A member has ended.
    Ended,
    /// There is no member.
    Nothing,
}

/// What a set does after a poll.
#[derive(Clone, Copy, Debug, PartialEq, Eq)]
pub enum Step {
    /// It is not ready either.
    Wait,
    /// It enrolls the member again and yields the item.
    Yield,
    /// It drops the member and polls again.
    Again,
    /// It is at its end.
    Done,
}

/// How many streams a set holds.
#[derive(Clone, Copy, Debug, PartialEq, Eq)]
pub struct SelectAll {
    pub members: usize,
}

impl SelectAll {
    /// An empty set, which is at its end.
    pub fn new() -> (set: SelectAll)
        ensures
            set.members == 0,
    {
        SelectAll { members: 0 }
    }

    /// The number of streams in the set.
    pub fn len(&self) -> (n: usize)
        ensures
            n == self.members,
    {
        self.members
    }

    pub fn is_empty(&self) -> (empty: bool)
        ensures
            empty == (self.members == 0),
    {
        self.members == 0
    }

    /// A stream joins the set.
    pub fn push(&mut self)
        requires
            old(self).members < usize::MAX,
        ensures
            final(self).members == old(self).members + 1,
    {
        self.members = self.members + 1;
    }

    /// Whether a poll can have given this: only a set without members has nothing to
    /// poll.
    pub open spec fn agrees(&self, polled: Polled) -> bool {
        (polled is Nothing) == (self.members == 0)
    }

    /// Decides what follows a poll. The set is at its end exactly when it is empty. A
    /// member that gave an item stays in the set; one that has ended leaves it, and
    /// the others go on.
    pub fn on_polled(&mut self, polled: Polled) -> (step: Step)
        requires
            old(self).agrees(polled),
        ensures
            step == match polled {
                Polled::Pending => Step::Wait,
                Polled::Item => Step::Yield,
                Polled::Ended => Step::Again,
                Polled::Nothing => Step::Done,
            },
            step is Done <==> old(self).members == 0,
            final(self).members == if polled is Ended {
                old(self).members - 1
            } else {
                old(self).members as int
            },
    {
        match polled {
            Polled::Pending => Step::Wait,
            Polled::Item => Step::Yield,
            Polled::Ended => {
                self.members = self.members - 1;
                Step::Again
            },
            Polled::Nothing => Step::Done,
        }
    }
}

} // verus!
