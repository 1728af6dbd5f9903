//! Sample computations for the executor: a number that is handed out only
//! after a configured count of resumptions, and a master computation that
//! waits on it and records the delivered value.

use vstd::prelude::*;

use crate::thought::Think;
use crate::wakeable::Wakeable;
use crate::wakeable::Waker;

verus! {

/// What one resumption of a computation reports: still suspended, or done
/// with a result.
#[derive(Debug)]
pub enum Outcome<T> {
    Pending,
    Ready(T),
}

/// A computation that stays pending for a configured number of resumptions
/// and then hands out its number. While pending it immediately re-arms
/// itself through the waker it is resumed with.
#[derive(Clone, Copy, Debug)]
pub struct GiveNumber {
    pub number_to_give: u32,
    pub give_after_tries: u32,
    pub current_tries: u32,
}

impl GiveNumber {
    /// Whether the next resumption still suspends instead of delivering.
    pub open spec fn suspends_next(self) -> bool {
        self.current_tries + 1 < self.give_after_tries
    }

    /// A fresh computation that delivers `number` on its `tries`-th
    /// resumption.
    pub fn new(number: u32, tries: u32) -> (r: GiveNumber)
        ensures
            r == (GiveNumber { number_to_give: number, give_after_tries: tries, current_tries: 0 }),
    {
        GiveNumber { number_to_give: number, give_after_tries: tries, current_tries: 0 }
    }

    /// One resumption: while resumptions are still owed, count this one,
    /// re-arm through the waker and stay pending; otherwise deliver the
    /// number without touching the count.
    pub fn poll<W: Wakeable>(&mut self, waker: &Waker<W>) -> (r: Outcome<u32>)
        ensures
            final(self).number_to_give == old(self).number_to_give,
            final(self).give_after_tries == old(self).give_after_tries,
            old(self).suspends_next() ==> r is Pending
                && final(self).current_tries == old(self).current_tries + 1,
            !old(self).suspends_next() ==> r == Outcome::<u32>::Ready(old(self).number_to_give)
                && final(self).current_tries == old(self).current_tries,
    {
        if (self.current_tries as u64) + 1 < (self.give_after_tries as u64) {
            self.current_tries = self.current_tries + 1;
            waker.wake_by_ref();
            Outcome::Pending
        } else {
            Outcome::Ready(self.number_to_give)
        }
    }
}

/// The computation actually submitted to the executor: it drives a
/// [`GiveNumber`] to completion and records that the value was delivered.
/// Once concluded it is fused: further resumptions report ready and change
/// nothing.
#[derive(Clone, Copy, Debug)]
pub struct MasterThought {
    pub wait_for: GiveNumber,
    pub delivered: bool,
}

/// The composed computation the samples submit: wait on a [`GiveNumber`]
/// configured with `number` and `tries`, then record the delivery.
pub fn main_thought(number: u32, tries: u32) -> (r: MasterThought)
    ensures
        r == (MasterThought { wait_for: GiveNumber { number_to_give: number, give_after_tries: tries, current_tries: 0 }, delivered: false }),
{
    MasterThought { wait_for: GiveNumber::new(number, tries), delivered: false }
}

impl Think for MasterThought {
    /// Whether the computation has concluded and delivered its value.
    open spec fn concluded(&self) -> bool {
        self.delivered
    }

    /// One resumption of the whole computation: forward to the inner
    /// computation unless it already concluded, and latch its conclusion.
    fn poll<W: Wakeable>(&mut self, waker: &Waker<W>) -> (r: Outcome<()>)
        ensures
            final(self).wait_for.number_to_give == old(self).wait_for.number_to_give,
            final(self).wait_for.give_after_tries == old(self).wait_for.give_after_tries,
            old(self).concluded() ==> r is Ready && *final(self) == *old(self),
            !old(self).concluded() && old(self).wait_for.suspends_next() ==> r is Pending
                && !final(self).concluded()
                && final(self).wait_for.current_tries == old(self).wait_for.current_tries + 1,
            !old(self).concluded() && !old(self).wait_for.suspends_next() ==> r is Ready
                && final(self).concluded()
                && final(self).wait_for.current_tries == old(self).wait_for.current_tries,
            final(self).concluded() == (old(self).concluded()
                || !old(self).wait_for.suspends_next()),
    {
        if self.delivered {
            Outcome::Ready(())
        } else {
            match self.wait_for.poll(waker) {
                Outcome::Pending => Outcome::Pending,
                Outcome::Ready(_number) => {
                    self.delivered = true;
                    Outcome::Ready(())
                },
            }
        }
    }
}

impl MasterThought {
    /// The delivered number and the count of resumptions the delivery took,
    /// once the computation has concluded; nothing before that.
    pub fn conclusion(&self) -> (r: Option<(u32, u64)>)
        ensures
            self.concluded() <==> r is Some,
            self.concluded() ==> r == Some(
                (self.wait_for.number_to_give, (self.wait_for.current_tries + 1) as u64),
            ),
    {
        if self.delivered {
            Some((self.wait_for.number_to_give, (self.wait_for.current_tries as u64) + 1))
        } else {
            None
        }
    }
}

} // verus!
