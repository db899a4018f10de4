use vstd::prelude::*;

verus! {

/// Who currently holds a session guard: nobody, some number of readers, or
/// one writer.
#[derive(Debug, Clone, Copy, PartialEq, Eq, Structural)]
pub enum Access {
    Idle,
    Shared(u64),
    Exclusive,
}

/// The non-blocking exclusive/shared discipline that guards one session's
/// mutable engine state.  Every acquisition is an attempt that returns at
/// once: when the guard is already held incompatibly — which, under
/// single-threaded callback reentry, means the session was invoked
/// recursively from within its own callback — the attempt fails immediately
/// instead of queuing, and leaves the guard exactly as it was.  Failing fast
/// here is deliberate: blocking could deadlock a callback-driven call stack
/// that cannot suspend mid-callback.
pub struct SessionLock {
    state: Access,
}

impl SessionLock {
    /// Who holds the guard.
    pub closed spec fn access(&self) -> Access {
        self.state
    }

    /// A shared hold always counts at least one reader.
    pub open spec fn wf(&self) -> bool {
        match self.access() {
            Access::Shared(n) => n >= 1,
            _ => true,
        }
    }

    /// A fresh guard that nobody holds.
    pub fn new() -> (lock: Self)
        ensures
            lock.wf(),
            lock.access() == Access::Idle,
    {
        SessionLock { state: Access::Idle }
    }

    /// Attempt exclusive access without blocking.  The attempt succeeds
    /// exactly when nobody holds the guard; a failed attempt changes
    /// nothing, so a recursive acquisition can never deadlock and never
    /// corrupts the guarded state.
    pub fn try_exclusive(&mut self) -> (ok: bool)
        requires
            old(self).wf(),
        ensures
            final(self).wf(),
            ok == (old(self).access() matches Access::Idle),
            ok ==> final(self).access() == Access::Exclusive,
            !ok ==> *final(self) == *old(self),
    {
        match self.state {
            Access::Idle => {
                self.state = Access::Exclusive;
                true
            },
            _ => false,
        }
    }

    /// Give up exclusive access.
    pub fn release_exclusive(&mut self)
        requires
            old(self).wf(),
            old(self).access() matches Access::Exclusive,
        ensures
            final(self).wf(),
            final(self).access() == Access::Idle,
    {
        self.state = Access::Idle;
    }

    /// Attempt shared access without blocking.  The attempt succeeds
    /// exactly when no writer holds the guard (and the reader count can
    /// still grow); a failed attempt changes nothing.
    pub fn try_shared(&mut self) -> (ok: bool)
        requires
            old(self).wf(),
        ensures
            final(self).wf(),
            ok == (match old(self).access() {
                Access::Idle => true,
                Access::Shared(n) => n < u64::MAX,
                Access::Exclusive => false,
            }),
            ok ==> final(self).access() == (match old(self).access() {
                Access::Idle => Access::Shared(1),
                Access::Shared(n) => Access::Shared((n + 1) as u64),
                Access::Exclusive => Access::Exclusive,
            }),
            !ok ==> *final(self) == *old(self),
    {
        match self.state {
            Access::Idle => {
                self.state = Access::Shared(1);
                true
            },
            Access::Shared(n) => {
                if n < u64::MAX {
                    self.state = Access::Shared(n + 1);
                    true
                } else {
                    false
                }
            },
            Access::Exclusive => false,
        }
    }

    /// Give up one shared hold.
    pub fn release_shared(&mut self)
        requires
            old(self).wf(),
            old(self).access() matches Access::Shared(_),
        ensures
            final(self).wf(),
            final(self).access() == (match old(self).access() {
                Access::Shared(n) => if n == 1 {
                    Access::Idle
                } else {
                    Access::Shared((n - 1) as u64)
                },
                other => other,
            }),
    {
        match self.state {
            Access::Shared(n) => {
                if n == 1 {
                    self.state = Access::Idle;
                } else {
                    self.state = Access::Shared(n - 1);
                }
            },
            _ => {},
        }
    }
}

} // verus!
