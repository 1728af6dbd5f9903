//! The executor: it owns both endpoints of one ready queue. `think_on`
//! wraps a computation into a thought and enqueues it; `do_thinking` drains
//! the queue, resuming each dequeued thought once. Any number of worker
//! loops may share one brain through a shared handle and call `do_thinking`
//! concurrently; delivery of each queue entry to exactly one of them is the
//! ready queue's business.

use vstd::prelude::*;

use std::sync::Arc;

use crate::mind::Outcome;
use crate::queue::QueueCore;
use crate::queue::Receiver;
use crate::queue::Sender;
use crate::queue::channel;
use crate::thought::Think;
use crate::thought::Thought;
use crate::wakeable::Wakeable;
use crate::wakeable::arc_clone;

verus! {

/// The scheduling authority: holder of the ready queue's two endpoints.
#[verifier::reject_recursive_types(C)]
pub struct Brain<C: Think> {
    /// The producer endpoint: `think_on` and every waker append here.
    pub(crate) sender: Sender<C>,
    /// The consumer endpoint worker loops take thoughts from.
    pub(crate) receiver: Receiver<C>,
}

impl<C: Think> Brain<C> {
    /// The ready queue this brain schedules over.
    pub closed spec fn queue(&self) -> QueueCore<C> {
        self.sender.queue()
    }

    /// The two endpoints belong to one and the same queue.
    pub closed spec fn wf(&self) -> bool {
        self.sender.queue() == self.receiver.queue()
    }

    /// A fresh brain whose sender and receiver are the two endpoints of
    /// one newly created ready queue.
    pub fn default() -> (b: Brain<C>)
        ensures
            b.wf(),
    {
        let (sender, receiver) = channel();
        Brain { sender, receiver }
    }

    /// Take ownership of a not-yet-started computation, pair it with a lock
    /// and this brain's producer endpoint, and enqueue the resulting shared
    /// handle on this brain's queue. The same handle is returned so the
    /// submitter can later review the outcome; dropping it is fine, the
    /// queue entry keeps the thought alive.
    pub fn think_on(&self, thinkable: C) -> (t: Arc<Thought<C>>)
        ensures
            t.submitted_mind() == thinkable,
            t.home() == self.queue(),
    {
        let thought = Arc::new(Thought::new(thinkable, &self.sender));
        self.sender.send(arc_clone(&thought));
        thought
    }

    /// One draining pass: take thoughts from the ready queue until it is
    /// empty, and give each one scheduling turn. Every thought dequeued
    /// belongs to this brain's queue, and each turn re-enters a thought's
    /// home queue only through a waker. A thought that reports pending is
    /// left alone: it survives through its outstanding references. A
    /// thought that reports ready is dropped and never re-queued.
    pub fn do_thinking(&self) {
        // the drain carries explicit fuel so that every pass provably
        // terminates; the bound is far beyond any reachable queue length,
        // so a forever-pending thought still gets its turns
        let mut fuel: u64 = u64::MAX;
        while fuel > 0
            decreases fuel,
        {
            fuel = fuel - 1;
            match self.receiver.recv() {
                None => {
                    // no more work: the queue is drained
                    break;
                },
                Some(thought) => {
                    let waker = Wakeable::into_waker(&thought);
                    let (outcome, _mind) = thought.think(&waker);
                    match outcome {
                        Outcome::Pending => {
                            // parked: a waker will re-queue it when
                            // progress is possible
                        },
                        Outcome::Ready(_) => {
                            // completed: the handle is dropped here and the
                            // thought is freed once its last reference goes
                        },
                    }
                },
            }
        }
    }
}

} // verus!
