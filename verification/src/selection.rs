//! Detects changes of the champion that the player has picked.

use vstd::prelude::*;

verus! {

/// Remembers the champion id seen in the last cycle.
#[derive(Debug, PartialEq, Eq)]
pub struct SelectionTracker {
    previous: Option<i64>,
}

impl View for SelectionTracker {
    type V = Option<i64>;

    closed spec fn view(&self) -> Option<i64> {
        self.previous
    }
}

impl SelectionTracker {
    /// A tracker that has seen no champion.
    pub fn new() -> (tracker: Self)
        ensures
            tracker@ is None,
    {
        SelectionTracker { previous: None }
    }

    /// The champion id seen in the last cycle.
    pub fn previous(&self) -> (id: Option<i64>)
        ensures
            id == self@,
    {
        self.previous
    }

    /// Takes note of the current champion id, and says whether it differs
    /// from the one seen before.
    pub fn observe(&mut self, current: Option<i64>) -> (changed: bool)
        ensures
            changed == (old(self)@ != current),
            final(self)@ == current,
    {
        let changed = match (self.previous, current) {
            (None, None) => false,
            (Some(before), Some(now)) => before != now,
            _ => true,
        };
        self.previous = current;
        changed
    }
}

} // verus!
