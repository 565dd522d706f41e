//! A counting semaphore.

use vstd::prelude::*;

verus! {

/// The count after giving a unit back to a count of `v` (wrapping at the
/// largest count).
pub open spec fn after_up(v: int) -> int {
    if v == isize::MAX { isize::MIN as int } else { v + 1 }
}

/// Taking a unit and giving it back leaves the count as it was.
pub proof fn lemma_down_up(v: int)
    requires
        0 < v <= isize::MAX,
    ensures
        after_up(v - 1) == v,
{
}

/// A counting semaphore.
pub struct Semaphore {
    count: isize,
}

impl Semaphore {
    /// The current count.
    pub closed spec fn value(&self) -> int {
        self.count as int
    }

    /// A semaphore with count `count`.
    pub fn new(count: isize) -> (r: Self)
        ensures
            r.value() == count,
    {
        Semaphore { count }
    }

    /// Take one unit. Waiting for a unit that never comes does not return,
    /// so the count must be positive.
    pub fn down(&mut self)
        requires
            old(self).value() > 0,
        ensures
            final(self).value() == old(self).value() - 1,
    {
        self.count = self.count - 1;
    }

    /// Give one unit back (the count wraps at its largest value).
    pub fn up(&mut self)
        ensures
            final(self).value() == after_up(old(self).value()),
    {
        self.count = self.count.wrapping_add(1);
    }

    /// The current count.
    pub fn count(&self) -> (r: isize)
        ensures
            r == self.value(),
    {
        self.count
    }
}

} // verus!
