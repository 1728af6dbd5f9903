//! The waker protocol, stated abstractly. One task is described by the
//! counts of its outstanding references and of the scheduling events that
//! have happened to it; the events a brain, its workers and the wakers can
//! perform are steps of a state machine. The laws proved here are about
//! every interleaving of those steps for one task: the lock and the ready
//! queue are trusted to serialize the turns of one task and to deliver each
//! queue entry exactly once, and under that arbitration any order of steps
//! satisfies these laws.

use vstd::prelude::*;

use crate::mind::MasterThought;
use crate::thought::Think;

verus! {

/// The protocol-relevant state of one task.
pub struct TaskLife {
    /// entries in the ready queue (one task may sit there several times)
    pub queued: nat,
    /// live waker references outside the queue
    pub wakers: nat,
    /// scheduling turns taken so far
    pub polls: nat,
    /// wake invocations so far, consuming or by-reference
    pub wakes: nat,
    /// completions reported so far
    pub dones: nat,
    /// times the task's storage was freed
    pub freed: nat,
    /// whether the computation has reported ready
    pub done: bool,
    /// scheduling turns the computation needs before it completes
    pub needs: nat,
}

/// What can happen to a task once it exists.
pub enum Event {
    /// a waker reference is cloned
    CloneWaker,
    /// a waker reference is dropped without ever waking
    DropWaker,
    /// a waker is invoked consumingly: its own reference moves into the
    /// queue as a new entry
    Wake,
    /// a waker is invoked by reference: a fresh reference joins the queue,
    /// the waker keeps its own
    WakeByRef,
    /// a worker takes one queue entry and resumes the computation once;
    /// `completes` tells whether this turn concluded it, `self_wake`
    /// whether the computation re-armed itself during the turn
    Poll { completes: bool, self_wake: bool },
}

/// Outstanding references to the task: queue entries plus live wakers.
pub open spec fn refs(s: TaskLife) -> nat {
    s.queued + s.wakers
}

/// The reference count never lies: storage is freed exactly when the last
/// reference goes, never earlier, never twice and never leaked while a
/// reference is reachable.
pub open spec fn sound_life(s: TaskLife) -> bool {
    (refs(s) > 0 && s.freed == 0) || (refs(s) == 0 && s.freed == 1)
}

/// Every queue entry stems from the submission or from exactly one wake,
/// and every scheduling turn consumed exactly one entry.
pub open spec fn accounted(s: TaskLife) -> bool {
    s.polls + s.queued == 1 + s.wakes
}

/// A completion is reported at most once, and exactly once when the
/// computation is done.
pub open spec fn concluded_once(s: TaskLife) -> bool {
    s.dones == (if s.done {
        1nat
    } else {
        0nat
    })
}

/// When an event can happen: references can only be used while they exist,
/// a turn needs a queue entry, and a fused computation does not conclude a
/// second time.
pub open spec fn enabled(s: TaskLife, e: Event) -> bool {
    match e {
        Event::CloneWaker => s.wakers > 0,
        Event::DropWaker => s.wakers > 0,
        Event::Wake => s.wakers > 0,
        Event::WakeByRef => s.wakers > 0,
        Event::Poll { completes, self_wake } => s.queued > 0 && (completes ==> !s.done),
    }
}

/// What an event does to the state. A turn consumes one queue entry and
/// drops the worker's handle at its end; a self-wake from inside the turn
/// puts a fresh entry back. Whenever the last reference goes, the storage
/// is freed.
pub open spec fn step(s: TaskLife, e: Event) -> TaskLife {
    match e {
        Event::CloneWaker => TaskLife { wakers: s.wakers + 1, ..s },
        Event::DropWaker => {
            let t = TaskLife { wakers: (s.wakers - 1) as nat, ..s };
            TaskLife {
                freed: t.freed + (if refs(t) == 0 {
                    1nat
                } else {
                    0nat
                }),
                ..t
            }
        },
        Event::Wake => TaskLife {
            wakers: (s.wakers - 1) as nat,
            queued: s.queued + 1,
            wakes: s.wakes + 1,
            ..s
        },
        Event::WakeByRef => TaskLife { queued: s.queued + 1, wakes: s.wakes + 1, ..s },
        Event::Poll { completes, self_wake } => {
            let t = TaskLife {
                queued: ((s.queued - 1) as nat) + (if self_wake {
                    1nat
                } else {
                    0nat
                }),
                polls: s.polls + 1,
                wakes: s.wakes + (if self_wake {
                    1nat
                } else {
                    0nat
                }),
                dones: s.dones + (if completes {
                    1nat
                } else {
                    0nat
                }),
                done: s.done || completes,
                ..s
            };
            TaskLife {
                freed: t.freed + (if refs(t) == 0 {
                    1nat
                } else {
                    0nat
                }),
                ..t
            }
        },
    }
}

/// Every event of the trace is enabled at the state it meets.
pub open spec fn valid_from(s: TaskLife, t: Seq<Event>) -> bool
    decreases t.len(),
{
    t.len() == 0 || (enabled(s, t[0]) && valid_from(step(s, t[0]), t.drop_first()))
}

/// The state after the whole trace has happened.
pub open spec fn run(s: TaskLife, t: Seq<Event>) -> TaskLife
    decreases t.len(),
{
    if t.len() == 0 {
        s
    } else {
        run(step(s, t[0]), t.drop_first())
    }
}

/// The state of a task right after submission: one queue entry holding the
/// only reference, nothing has happened yet.
pub open spec fn submitted(needs: nat) -> TaskLife {
    TaskLife { queued: 0 + 1, wakers: 0, polls: 0, wakes: 0, dones: 0, freed: 0, done: false, needs }
}

/// A task held only through waker references, never submitted to a queue.
pub open spec fn held_by_wakers(w: nat) -> TaskLife {
    TaskLife { queued: 0, wakers: w, polls: 0, wakes: 0, dones: 0, freed: 0, done: false, needs: 0 }
}

/// Law: one step preserves reference-count soundness, the poll/wake
/// accounting, and at-most-once completion.
pub proof fn lemma_step_sound(s: TaskLife, e: Event)
    requires
        sound_life(s),
        accounted(s),
        concluded_once(s),
        enabled(s, e),
    ensures
        sound_life(step(s, e)),
        accounted(step(s, e)),
        concluded_once(step(s, e)),
{
}

/// Law: along any valid trace the three invariants hold in the final state
/// as well.
pub proof fn lemma_run_sound(s: TaskLife, t: Seq<Event>)
    requires
        sound_life(s),
        accounted(s),
        concluded_once(s),
        valid_from(s, t),
    ensures
        sound_life(run(s, t)),
        accounted(run(s, t)),
        concluded_once(run(s, t)),
    decreases t.len(),
{
    if t.len() > 0 {
        lemma_step_sound(s, t[0]);
        lemma_run_sound(step(s, t[0]), t.drop_first());
    }
}

/// Whatever happens to a submitted task, it never takes more scheduling
/// turns than one more than the wake calls made for it, it is freed at
/// most once, and it concludes at most once.
pub proof fn lemma_task_bounds(t: Seq<Event>, needs: nat)
    requires
        valid_from(submitted(needs), t),
    ensures
        run(submitted(needs), t).polls <= 1 + run(submitted(needs), t).wakes,
        run(submitted(needs), t).freed <= 1,
        run(submitted(needs), t).dones <= 1,
{
    lemma_run_sound(submitted(needs), t);
}

/// Splitting a trace: a concatenation is valid exactly when its first part
/// is valid and its second part is valid from where the first part ends,
/// and running it is running the parts in turn.
pub proof fn lemma_split(s: TaskLife, a: Seq<Event>, b: Seq<Event>)
    ensures
        valid_from(s, a + b) == (valid_from(s, a) && valid_from(run(s, a), b)),
        run(s, a + b) == run(run(s, a), b),
    decreases a.len(),
{
    if a.len() == 0 {
        assert(a + b =~= b);
        assert(run(s, a) == s);
    } else {
        assert((a + b)[0] == a[0]);
        assert((a + b).drop_first() =~= a.drop_first() + b);
        lemma_split(step(s, a[0]), a.drop_first(), b);
    }
}

/// The same event over and over.
pub open spec fn repeated(e: Event, n: nat) -> Seq<Event> {
    Seq::new(n, |i| e)
}

/// Cloning a live waker n times is always possible and adds n references.
pub proof fn lemma_clones(s: TaskLife, n: nat)
    requires
        s.wakers > 0,
    ensures
        valid_from(s, repeated(Event::CloneWaker, n)),
        run(s, repeated(Event::CloneWaker, n)) == (TaskLife { wakers: s.wakers + n, ..s }),
    decreases n,
{
    let t = repeated(Event::CloneWaker, n);
    if n == 0 {
        assert(run(s, t) == s);
        assert(s == (TaskLife { wakers: s.wakers + 0, ..s }));
    } else {
        assert(t[0] == Event::CloneWaker);
        assert(t.drop_first() =~= repeated(Event::CloneWaker, (n - 1) as nat));
        lemma_clones(step(s, Event::CloneWaker), (n - 1) as nat);
    }
}

/// Dropping every one of the n waker references of an unqueued task is
/// always possible; the last drop frees the task, once.
pub proof fn lemma_drops(s: TaskLife, n: nat)
    requires
        s.wakers == n,
        n > 0,
        s.queued == 0,
        s.freed == 0,
    ensures
        valid_from(s, repeated(Event::DropWaker, n)),
        run(s, repeated(Event::DropWaker, n)) == (TaskLife { wakers: 0, freed: 1, ..s }),
    decreases n,
{
    let t = repeated(Event::DropWaker, n);
    assert(t[0] == Event::DropWaker);
    assert(t.drop_first() =~= repeated(Event::DropWaker, (n - 1) as nat));
    let s1 = step(s, Event::DropWaker);
    if n == 1 {
        assert(t.drop_first().len() == 0);
        assert(valid_from(s1, t.drop_first()));
        assert(run(s1, t.drop_first()) == s1);
        assert(run(s, t) == run(s1, t.drop_first()));
        assert(s1 == (TaskLife { wakers: 0, freed: 1, ..s }));
    } else {
        lemma_drops(s1, (n - 1) as nat);
        assert(run(s, t) == run(s1, t.drop_first()));
        assert((TaskLife { wakers: 0, freed: 1, ..s1 }) == (TaskLife { wakers: 0, freed: 1, ..s }));
    }
}

/// Creating c clones of the one waker of a task and dropping all c+1
/// references, without ever invoking a wake, frees the task exactly once,
/// with no wake and no scheduling turn ever taken.
pub proof fn lemma_drop_all_frees_once(c: nat)
    ensures
        ({
            let s0 = held_by_wakers(1);
            let t = repeated(Event::CloneWaker, c) + repeated(Event::DropWaker, c + 1);
            valid_from(s0, t) && run(s0, t) == (TaskLife {
                queued: 0,
                wakers: 0,
                polls: 0,
                wakes: 0,
                dones: 0,
                freed: 1,
                done: false,
                needs: 0,
            })
        }),
{
    let s0 = held_by_wakers(1);
    let a = repeated(Event::CloneWaker, c);
    let b = repeated(Event::DropWaker, c + 1);
    lemma_clones(s0, c);
    lemma_drops(run(s0, a), c + 1);
    lemma_split(s0, a, b);
}

/// How the self-re-arming sample computation answers a scheduling turn: it
/// concludes on its needs-th turn and re-arms itself on every earlier one.
pub open spec fn self_arming_poll(s: TaskLife, e: Event) -> bool {
    match e {
        Event::Poll { completes, self_wake } => completes == (!s.done && s.polls + 1 == s.needs)
            && self_wake == (!s.done && s.polls + 1 < s.needs),
        _ => true,
    }
}

/// Every turn of the trace is answered the way the self-re-arming
/// computation answers it.
pub open spec fn self_arming_from(s: TaskLife, t: Seq<Event>) -> bool
    decreases t.len(),
{
    t.len() == 0 || (self_arming_poll(s, t[0]) && self_arming_from(step(s, t[0]), t.drop_first()))
}

/// A trace of scheduling turns only: no outside stimulus of any kind.
pub open spec fn polls_only(t: Seq<Event>) -> bool {
    forall|i: int| 0 <= i < t.len() ==> t[i] is Poll
}

/// What a lone worker can observe while driving the self-re-arming
/// computation: before its conclusion the task sits in the queue exactly
/// once and still owes turns; after it, the queue holds it no more and it
/// took exactly the turns it needed.
pub open spec fn solo_inv(s: TaskLife) -> bool {
    s.wakers == 0 && (if !s.done {
        s.queued == 1 && s.polls < s.needs
    } else {
        s.queued == 0 && s.polls == s.needs
    })
}

/// Law: a scheduling turn answered by the self-re-arming computation
/// preserves the lone-worker invariant.
pub proof fn lemma_solo_step(s: TaskLife, e: Event)
    requires
        solo_inv(s),
        enabled(s, e),
        self_arming_poll(s, e),
        e is Poll,
    ensures
        solo_inv(step(s, e)),
        step(s, e).needs == s.needs,
        step(s, e).polls > s.polls,
{
}

/// Law: the lone-worker invariant holds along every trace of turns.
pub proof fn lemma_solo_run(s: TaskLife, t: Seq<Event>)
    requires
        solo_inv(s),
        valid_from(s, t),
        self_arming_from(s, t),
        polls_only(t),
    ensures
        solo_inv(run(s, t)),
        run(s, t).needs == s.needs,
        run(s, t).polls >= s.polls,
    decreases t.len(),
{
    if t.len() > 0 {
        assert(t[0] is Poll);
        lemma_solo_step(s, t[0]);
        assert forall|i: int| 0 <= i < t.drop_first().len() implies t.drop_first()[i] is Poll by {
            assert(t.drop_first()[i] == t[i + 1]);
        }
        lemma_solo_run(step(s, t[0]), t.drop_first());
    }
}

/// A computation that concludes on its k-th scheduling turn and does not
/// re-arm afterward is polled exactly k times by the time the executor is
/// quiet, with no stimulus beyond its own re-arming.
pub proof fn lemma_exact_polls(t: Seq<Event>, needs: nat)
    requires
        needs >= 1,
        valid_from(submitted(needs), t),
        self_arming_from(submitted(needs), t),
        polls_only(t),
        run(submitted(needs), t).queued == 0,
    ensures
        run(submitted(needs), t).polls == needs,
        run(submitted(needs), t).done,
{
    lemma_solo_run(submitted(needs), t);
}

/// The scheduling turns the sample computation needs before it concludes:
/// its configured count, taken as one when it is configured to conclude
/// right away.
pub open spec fn turns_needed(m: MasterThought) -> nat {
    if m.wait_for.give_after_tries == 0 {
        1nat
    } else {
        m.wait_for.give_after_tries as nat
    }
}

/// The scheduling turns the sample computation has taken up to its
/// conclusion: every pending turn counted one, the concluding turn did
/// not count itself.
pub open spec fn turns_taken(m: MasterThought) -> nat {
    m.wait_for.current_tries as nat + (if m.delivered {
        1nat
    } else {
        0nat
    })
}

/// Law: a scheduling turn of the sample computation is exactly a
/// self-re-arming event of the protocol model. While it has not concluded
/// and turns are owed, it suspends precisely when more turns remain owed
/// after this one, re-arming itself, and concludes precisely on the last
/// owed turn — which is what [`self_arming_poll`] assumes of the events the
/// lemmas above quantify over.
pub proof fn lemma_master_poll_abstracts(pre: MasterThought, s: TaskLife)
    requires
        !pre.concluded(),
        s.done == pre.concluded(),
        s.polls == turns_taken(pre),
        s.needs == turns_needed(pre),
        s.polls < s.needs,
    ensures
        pre.wait_for.suspends_next() <==> s.polls + 1 < s.needs,
        self_arming_poll(
            s,
            Event::Poll {
                completes: !pre.wait_for.suspends_next(),
                self_wake: pre.wait_for.suspends_next(),
            },
        ),
{
}

/// A computation that re-arms itself on a pending turn is polled at least
/// once more before the executor can be quiet, with no outside stimulus.
pub proof fn lemma_self_wake_repolls(s: TaskLife, t: Seq<Event>)
    requires
        solo_inv(s),
        !s.done,
        valid_from(s, t),
        self_arming_from(s, t),
        polls_only(t),
        run(s, t).queued == 0,
    ensures
        run(s, t).polls > s.polls,
{
    lemma_solo_run(s, t);
}

} // verus!
