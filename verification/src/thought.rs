//! A thought: the scheduling record for one submitted computation. It pairs
//! the computation with a mutual-exclusion lock, so that at most one worker
//! resumes it at any instant, and with a producer endpoint of the ready
//! queue it re-enters when woken. A thought is always held through a shared
//! reference-counted handle: the queue entries and every waker alias the
//! same record, and the record is freed only when the last of those
//! references is dropped.

use vstd::prelude::*;

use ruspiro_lock::sync::Mutex;
use ruspiro_lock::sync::MutexGuard;
use std::sync::Arc;

use crate::mind::Outcome;
use crate::queue::QueueCore;
use crate::queue::Sender;
use crate::wakeable::Wakeable;
use crate::wakeable::Waker;
use crate::wakeable::arc_clone;

verus! {

/// A suspendable computation the executor can drive: a plain-value state
/// machine that is resumed one turn at a time. A turn reports ready exactly
/// when the computation has concluded; a concluded computation is fused and
/// stays concluded. The value is copied in and out of its lock slot, so a
/// computation is plain data.
pub trait Think: Sized + Copy {
    /// Whether the computation has concluded.
    spec fn concluded(&self) -> bool;

    /// One resumption. While suspended the computation may re-arm itself
    /// through the waker it is handed.
    fn poll<W: Wakeable>(&mut self, waker: &Waker<W>) -> (r: Outcome<()>)
        ensures
            r is Ready <==> final(self).concluded(),
            old(self).concluded() ==> final(self).concluded(),
    ;
}

#[verifier::external_type_specification]
#[verifier::external_body]
#[verifier::reject_recursive_types(T)]
pub struct ExMutex<T: ?Sized>(Mutex<T>);

#[verifier::external_type_specification]
#[verifier::external_body]
#[verifier::reject_recursive_types(T)]
pub struct ExMutexGuard<'a, T: ?Sized + 'a>(MutexGuard<'a, T>);

/// Relies on `ruspiro_lock::sync::Mutex::new`: a fresh unlocked lock
/// guarding the given value.
pub assume_specification<T>[ Mutex::<T>::new ](value: T) -> Mutex<T>;

/// One submitted computation together with its lock and the producer
/// endpoint through which it is re-queued on a wake.
#[verifier::reject_recursive_types(C)]
pub struct Thought<C: Think> {
    pub(crate) mind: Mutex<C>,
    pub(crate) sender: Sender<C>,
    /// the computation as it was handed in at submission
    pub(crate) started: Ghost<C>,
}

/// Relies on the guard's `Deref` impl: a copy of the value the held lock
/// guards. The guarded slot is interior-mutable shared state, so nothing
/// relates this copy to any earlier or later observation.
#[verifier::external_body]
fn guard_read<C: Think>(guard: &MutexGuard<'_, C>) -> C {
    **guard
}

/// Relies on the guard's `DerefMut` impl: overwrite the value the held
/// lock guards.
#[verifier::external_body]
fn guard_write<C: Think>(guard: &mut MutexGuard<'_, C>, mind: C) {
    **guard = mind;
}

impl<C: Think> Thought<C> {
    /// The computation this thought was created with, before any turn was
    /// taken on it.
    pub closed spec fn submitted_mind(&self) -> C {
        self.started@
    }

    /// The ready queue this thought re-enters when woken: the one its
    /// producer endpoint feeds.
    pub closed spec fn home(&self) -> QueueCore<C> {
        self.sender.queue()
    }

    /// Relies on `ruspiro_lock::sync::Mutex::lock`: blocking exclusive
    /// access; the lock stays held until the returned guard is dropped, so
    /// no second worker can resume the same computation while a turn is in
    /// progress.
    #[verifier::external_body]
    fn lock_mind<'a>(&'a self) -> MutexGuard<'a, C> {
        self.mind.lock()
    }

    /// Pair a computation with a lock and a producer endpoint of the ready
    /// queue it should re-enter when woken.
    pub fn new(mind: C, sender: &Sender<C>) -> (t: Thought<C>)
        ensures
            t.submitted_mind() == mind,
            t.home() == sender.queue(),
    {
        let ghost first = mind;
        Thought { mind: Mutex::new(mind), sender: sender.clone(), started: Ghost(first) }
    }

    /// One scheduling turn: lock the computation, resume it once with the
    /// given waker, unlock. The turn reports ready exactly when the
    /// computation state it leaves behind — returned here as a copy — has
    /// concluded. The lock serializes turns, so the resumption is never
    /// re-entrant; which state the turn finds behind the lock depends on
    /// the turns and wakes that other workers took before it.
    pub fn think(self: &Arc<Self>, waker: &Waker<Thought<C>>) -> (r: (Outcome<()>, C))
        ensures
            r.0 is Ready <==> r.1.concluded(),
    {
        let mut guard = self.lock_mind();
        let mut mind = guard_read(&guard);
        let outcome = mind.poll(waker);
        guard_write(&mut guard, mind);
        (outcome, mind)
    }

    /// A copy of the computation's current state, taken under the lock.
    pub fn review(&self) -> C {
        let guard = self.lock_mind();
        guard_read(&guard)
    }
}

impl<C: Think> Wakeable for Thought<C> {
    /// Re-queue this thought: a fresh shared reference of the handle is
    /// appended to the ready queue it was submitted on — its home queue.
    fn wake_by_ref(self: &Arc<Self>) {
        let clone = arc_clone(self);
        self.sender.send(clone);
    }
}

} // verus!
