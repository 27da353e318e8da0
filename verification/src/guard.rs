//! Scoped mutual exclusion for fund-distributing operations.
//!
//! A guarded operation acquires the flag on entry and must release it on
//! every exit path, success or failure; a second guarded call that arrives
//! while the flag is held is refused with `ReentrantCall`. This closes the
//! window where a malicious token implementation, called back during a
//! transfer, could start a second distribution against inconsistent state.

use vstd::prelude::*;

verus! {

use crate::types::Error;

/// The one piece of lock state in the engine. If a guarded operation ever
/// returned without releasing it, every later guarded call would fail, so
/// each such operation ensures the flag ends up released.
pub struct ReentrancyGuard {
    pub in_progress: bool,
}

impl ReentrancyGuard {
    /// Whether a guarded operation is in flight.
    pub open spec fn spec_locked(&self) -> bool {
        self.in_progress
    }

    /// A released guard.
    pub fn new() -> (r: ReentrancyGuard)
        ensures
            !r.spec_locked(),
    {
        ReentrancyGuard { in_progress: false }
    }

    /// Acquire the guard, refusing a call that arrives while one is held.
    pub fn acquire(&mut self) -> (r: Result<(), Error>)
        ensures
            match r {
                Ok(()) => !old(self).spec_locked() && final(self).spec_locked(),
                Err(e) => e == Error::ReentrantCall && old(self).spec_locked() && *final(self)
                    == *old(self),
            },
    {
        if self.in_progress {
            Err(Error::ReentrantCall)
        } else {
            self.in_progress = true;
            Ok(())
        }
    }

    /// Release the guard. Runs on every exit path of a guarded operation.
    pub fn release(&mut self)
        ensures
            !final(self).spec_locked(),
    {
        self.in_progress = false;
    }
}

} // verus!
