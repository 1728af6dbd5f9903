//! The notification capability: anything held behind a shared handle that
//! can arrange to be scheduled for another round of processing.

use vstd::prelude::*;

use std::sync::Arc;

verus! {

/// Relies on `Arc::clone`: it returns a handle to the very same allocation,
/// so the pointed-to value of the result equals the pointed-to value of the
/// argument.
#[verifier::external_body]
pub(crate) fn arc_clone<T>(v: &Arc<T>) -> (r: Arc<T>)
    ensures
        r == *v,
{
    Arc::clone(v)
}

/// A shared-handle type that can be rescheduled: invoking a wake hands a
/// fresh reference of the handle to whoever processes it next.
pub trait Wakeable: Sized {
    /// Reschedule while keeping this handle: a new shared reference is
    /// created and handed on, this one is retained.
    fn wake_by_ref(self: &Arc<Self>);

    /// Reschedule and give this handle up: the shared reference held here
    /// travels on to the scheduler.
    fn wake(self: Arc<Self>) {
        Self::wake_by_ref(&self);
    }

    /// Build a free-standing waker aliasing the same underlying value.
    fn into_waker(self: &Arc<Self>) -> (w: Waker<Self>)
        ensures
            w.wakes() == **self,
    {
        Waker { wakeable: arc_clone(self) }
    }
}

/// A reference-counted notification capability: an opaque alias of one
/// wakeable value, freely cloneable and usable from any thread of control.
pub struct Waker<T> {
    pub(crate) wakeable: Arc<T>,
}

impl<T> Waker<T> {
    /// The value this capability aliases.
    pub closed spec fn wakes(&self) -> T {
        *self.wakeable
    }
}

impl<T: Wakeable> Waker<T> {
    /// Invoke the capability, consuming it: its own reference is the one
    /// handed to the scheduler.
    pub fn wake(self) {
        T::wake(self.wakeable);
    }

    /// Invoke the capability while retaining it: a cloned reference is
    /// handed to the scheduler.
    pub fn wake_by_ref(&self) {
        T::wake_by_ref(&self.wakeable);
    }
}

impl<T> Clone for Waker<T> {
    /// A clone aliases the same wakeable value.
    fn clone(&self) -> (r: Self)
        ensures
            r.wakes() == self.wakes(),
    {
        Waker { wakeable: arc_clone(&self.wakeable) }
    }
}

} // verus!
