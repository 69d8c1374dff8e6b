//! Capacity-bounded task slot of the priority dispatcher.
//!
//! The streaming loop is declared with a re-entrancy capacity of one:
//! at most one pending activation may be queued.  A spawn against a
//! slot that already holds a pending activation fails and the new
//! work is dropped; nothing is queued behind it.  Deadlines are ticks
//! of the monotonic clock.

use vstd::prelude::*;

verus! {

/// Why a spawn was rejected.
#[derive(Clone, Copy, Debug, PartialEq, Eq, Structural)]
pub enum SpawnError {
    /// The slot already holds its one allowed pending activation.
    AlreadyPending,
}

/// One software task's scheduling slot (capacity one).
#[derive(Clone, Copy, Debug, PartialEq, Eq, Structural)]
pub struct TaskSlot {
    /// Deadline of the pending activation, if one is queued.
    pub pending: Option<u64>,
}

/// What a spawn does to a slot: it queues the deadline only when the
/// slot is empty, and reports whether it was accepted.
pub open spec fn spec_spawn(s: TaskSlot, at: u64) -> (TaskSlot, bool) {
    match s.pending {
        Some(_) => (s, false),
        None => (TaskSlot { pending: Some(at) }, true),
    }
}

impl TaskSlot {
    /// An empty slot: no activation pending.
    pub fn new() -> (r: TaskSlot)
        ensures
            r.pending is None,
    {
        TaskSlot { pending: None }
    }

    /// Queue one activation with deadline `at`.  Fails — without
    /// queueing or replacing anything — if an activation is already
    /// pending.
    pub fn spawn_at(&mut self, at: u64) -> (r: Result<(), SpawnError>)
        ensures
            *final(self) == spec_spawn(*old(self), at).0,
            r is Ok <==> spec_spawn(*old(self), at).1,
            old(self).pending is None ==> final(self).pending == Some(at),
            old(self).pending is Some ==> r == Result::<(), SpawnError>::Err(
                SpawnError::AlreadyPending,
            ) && *final(self) == *old(self),
    {
        match self.pending {
            Some(_) => Err(SpawnError::AlreadyPending),
            None => {
                self.pending = Some(at);
                Ok(())
            },
        }
    }

    /// Dispatch: if the pending activation's deadline has been
    /// reached, take it out of the slot and run it.
    pub fn take_due(&mut self, now: u64) -> (r: Option<u64>)
        ensures
            match old(self).pending {
                Some(at) => if at <= now {
                    r == Some(at) && final(self).pending is None
                } else {
                    r is None && *final(self) == *old(self)
                },
                None => r is None && *final(self) == *old(self),
            },
    {
        match self.pending {
            Some(at) => {
                if at <= now {
                    self.pending = None;
                    Some(at)
                } else {
                    None
                }
            },
            None => None,
        }
    }
}

/// Re-arming is exact under capacity one: a freshly dispatched slot
/// accepts exactly one reschedule, and a second spawn attempted
/// before the next dispatch is rejected — not queued — leaving the
/// single pending activation in place.
pub proof fn lemma_single_rearm(s: TaskSlot, at1: u64, at2: u64)
    requires
        s.pending is None,
    ensures
        ({
            let (s1, ok1) = spec_spawn(s, at1);
            let (s2, ok2) = spec_spawn(s1, at2);
            &&& ok1
            &&& s1.pending == Some(at1)
            &&& !ok2
            &&& s2 == s1
        }),
{
}

} // verus!
