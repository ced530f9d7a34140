//! Change counting for the typed state store of GUI callbacks: the store
//! bumps a counter whenever a value may have changed, and a reader that
//! remembers the last counter it saw copies the store only when it moved.
use vstd::prelude::*;

verus! {

/// A counter of possible changes, starting at zero.
#[derive(Clone, Copy, Debug, PartialEq, Eq, Structural)]
pub struct Generation {
    count: u64,
}

impl Generation {
    /// The number of possible changes counted so far.
    pub closed spec fn count(self) -> u64 {
        self.count
    }

    /// No change counted yet.
    pub fn new() -> (r: Self)
        ensures
            r.count() == 0,
    {
        Generation { count: 0 }
    }

    /// The current count.
    pub fn get(&self) -> (r: u64)
        ensures
            r == self.count(),
    {
        self.count
    }

    /// Count one more possible change. The count is a `u64` that the
    /// store never lets overflow.
    pub fn bump(&mut self)
        requires
            old(self).count() < u64::MAX,
        ensures
            final(self).count() == old(self).count() + 1,
    {
        self.count = self.count + 1;
    }
}

/// Whether the count moved since `last_seen`, recording the current count
/// as seen.
pub fn generation_changed(last_seen: &mut u64, current: u64) -> (r: bool)
    ensures
        r == (*old(last_seen) != current),
        *final(last_seen) == current,
{
    let changed = *last_seen != current;
    *last_seen = current;
    changed
}

/// A reader that saw the count before a bump sees a change after it.
pub proof fn lemma_bump_is_seen(before: Generation, after: Generation, last_seen: u64)
    requires
        last_seen == before.count(),
        after.count() == before.count() + 1,
    ensures
        last_seen != after.count(),
{
}

} // verus!
