//! The single-flight guard of a room's history requests.

use vstd::prelude::*;

verus! {

/// A binary lock whose state can be read without taking it.
///
/// Taking the lock never waits: while it is held, `try_lock` fails at once.
#[derive(Debug)]
pub struct IntMutex {
    locked: bool,
}

/// The proof of having taken an [`IntMutex`]. Handing it back with
/// [`IntMutex::unlock`] releases the lock.
#[derive(Debug)]
pub struct IntMutexGuard {
    held: (),
}

impl View for IntMutex {
    type V = bool;

    /// Whether the lock is held.
    closed spec fn view(&self) -> bool {
        self.locked
    }
}

impl IntMutex {
    /// A lock that nobody holds.
    pub fn new() -> (lock: Self)
        ensures
            !lock@,
    {
        IntMutex { locked: false }
    }

    /// Whether the lock is held right now.
    pub fn locked(&self) -> (held: bool)
        ensures
            held == self@,
    {
        self.locked
    }

    /// Takes the lock if it is free. A held lock is left as it is and the
    /// call fails.
    pub fn try_lock(&mut self) -> (taken: Result<IntMutexGuard, ()>)
        ensures
            final(self)@,
            taken is Ok <==> !old(self)@,
    {
        if self.locked {
            Err(())
        } else {
            self.locked = true;
            Ok(IntMutexGuard { held: () })
        }
    }

    /// Releases the lock.
    pub fn unlock(&mut self, guard: IntMutexGuard)
        ensures
            !final(self)@,
    {
        let IntMutexGuard { held } = guard;
        self.locked = false;
    }
}

} // verus!
