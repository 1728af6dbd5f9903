//! The ready queue: an ordered multi-producer/multi-consumer buffer of
//! shared thought handles. Producers append at the back, consumers take from
//! the front, so delivery is first-in first-out; concurrent access is
//! serialized by a cross-thread lock around the buffer.
//!
//! Both endpoints carry a [`QueueCore`]: an opaque handle whose abstract
//! value is the identity of the shared buffer. The contracts here are
//! phrased over that identity: the two endpoints of one channel share it,
//! cloning an endpoint preserves it, only thoughts that belong to a queue
//! may be pushed on it, and whatever comes out belonged to it. The
//! buffer's changing contents themselves cannot be spoken of: the
//! endpoints are aliased across threads and mutate through shared
//! references, so no specification of a call could relate contents before
//! and after it.

use vstd::prelude::*;

use ruspiro_lock::sync::Mutex;
use std::collections::VecDeque;
use std::sync::Arc;

use crate::thought::Think;
use crate::thought::Thought;

verus! {

/// The shared buffer of one ready queue, as an opaque handle. Its abstract
/// value stands for the identity of the buffer: two handles are equal
/// exactly when they alias the same buffer.
#[verifier::external_body]
#[verifier::reject_recursive_types(C)]
pub struct QueueCore<C: Think> {
    inner: Arc<Mutex<VecDeque<Arc<Thought<C>>>>>,
}

/// Relies on `ruspiro_lock::sync::Mutex::new`: a fresh buffer, aliased by
/// nothing else, guarded by a new unlocked lock.
#[verifier::external_body]
fn new_core<C: Think>() -> QueueCore<C> {
    QueueCore { inner: Arc::new(Mutex::new(VecDeque::new())) }
}

/// Relies on `Arc::clone`: the clone aliases the very same buffer, so its
/// abstract identity is the same.
#[verifier::external_body]
fn clone_core<C: Think>(core: &QueueCore<C>) -> (r: QueueCore<C>)
    ensures
        r == *core,
{
    QueueCore { inner: Arc::clone(&core.inner) }
}

/// Append one handle at the back of the buffer; the buffer takes over the
/// reference passed in. The queue is unbounded, so pushing always succeeds.
/// Only handles that belong to this queue may be pushed: that is what lets
/// [`core_pop`] promise where its results belong.
///
/// Relies on `ruspiro_lock::sync::Mutex::lock` for exclusive access to the
/// buffer while the handle is appended.
#[verifier::external_body]
fn core_push<C: Think>(core: &QueueCore<C>, thought: Arc<Thought<C>>)
    requires
        thought.home() == *core,
{
    core.inner.lock().push_back(thought);
}

/// Take the handle at the front of the buffer, if it holds any. Every
/// handle in the buffer entered through [`core_push`], whose precondition
/// ties it to this very queue, so whatever comes out belongs to it.
///
/// Relies on `ruspiro_lock::sync::Mutex::lock` for exclusive access to the
/// buffer while the front entry is removed.
#[verifier::external_body]
fn core_pop<C: Think>(core: &QueueCore<C>) -> (r: Option<Arc<Thought<C>>>)
    ensures
        r matches Some(t) ==> t.home() == *core,
{
    core.inner.lock().pop_front()
}

/// The sending endpoint of a ready queue. Cloning it yields another
/// producer for the same queue.
#[verifier::reject_recursive_types(C)]
pub struct Sender<C: Think> {
    pub(crate) core: QueueCore<C>,
}

/// The receiving endpoint of a ready queue.
#[verifier::reject_recursive_types(C)]
pub struct Receiver<C: Think> {
    pub(crate) core: QueueCore<C>,
}

/// Create both endpoints of one fresh, empty ready queue: they share one
/// buffer that nothing else aliases yet.
pub fn channel<C: Think>() -> (r: (Sender<C>, Receiver<C>))
    ensures
        r.0.queue() == r.1.queue(),
{
    let core = new_core();
    let sender = Sender { core: clone_core(&core) };
    (sender, Receiver { core })
}

impl<C: Think> Sender<C> {
    /// The queue this endpoint feeds.
    pub closed spec fn queue(&self) -> QueueCore<C> {
        self.core
    }

    /// Append one handle at the back of the queue; the queue takes over the
    /// reference passed in. Sending always succeeds: the queue is
    /// unbounded.
    pub fn send(&self, thought: Arc<Thought<C>>)
        requires
            thought.home() == self.queue(),
    {
        core_push(&self.core, thought);
    }
}

impl<C: Think> Clone for Sender<C> {
    /// Another producer endpoint of the very same queue.
    fn clone(&self) -> (r: Self)
        ensures
            r.queue() == self.queue(),
    {
        Sender { core: clone_core(&self.core) }
    }
}

impl<C: Think> Receiver<C> {
    /// The queue this endpoint drains.
    pub closed spec fn queue(&self) -> QueueCore<C> {
        self.core
    }

    /// Take the handle at the front of the queue, if the queue holds any.
    /// Whatever comes out was submitted or woken onto this very queue.
    pub fn recv(&self) -> (r: Option<Arc<Thought<C>>>)
        ensures
            r matches Some(t) ==> t.home() == self.queue(),
    {
        core_pop(&self.core)
    }
}

} // verus!
