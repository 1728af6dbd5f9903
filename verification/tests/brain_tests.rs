use std::sync::Arc;

use brain::Brain;
use brain::MasterThought;
use brain::GiveNumber;
use brain::Outcome;
use brain::Thought;
use brain::Wakeable;
use brain::channel;
use brain::main_thought;

#[test]
fn single_worker_ten_polls() {
    // one worker loop, a computation needing 10 polls before yielding 20
    let brain = Brain::<MasterThought>::default();
    let thought = brain.think_on(main_thought(20, 10));
    brain.do_thinking();
    let mind = thought.review();
    assert_eq!(mind.conclusion(), Some((20, 10)));
}

#[test]
fn four_thoughts_all_complete() {
    // four computations on one brain; all complete, each delivering its
    // configured value exactly once with the configured poll count
    let brain = Brain::<MasterThought>::default();
    let expected = [(10u32, 10u64), (20, 5), (30, 6), (40, 3)];
    let handles: Vec<Arc<Thought<MasterThought>>> = expected
        .iter()
        .map(|&(value, polls)| brain.think_on(main_thought(value, polls as u32)))
        .collect();
    brain.do_thinking();
    for (handle, &(value, polls)) in handles.iter().zip(expected.iter()) {
        assert_eq!(handle.review().conclusion(), Some((value, polls)));
    }
}

#[test]
fn completes_in_exactly_k_polls() {
    let brain = Brain::<MasterThought>::default();
    let quick = brain.think_on(main_thought(5, 1));
    let slow = brain.think_on(main_thought(7, 3));
    brain.do_thinking();
    assert_eq!(quick.review().conclusion(), Some((5, 1)));
    assert_eq!(slow.review().conclusion(), Some((7, 3)));
}

#[test]
fn zero_tries_completes_on_first_poll() {
    let brain = Brain::<MasterThought>::default();
    let thought = brain.think_on(main_thought(11, 0));
    brain.do_thinking();
    assert_eq!(thought.review().conclusion(), Some((11, 1)));
}

#[test]
fn self_wake_causes_repoll() {
    // the computation re-arms itself on its pending poll; with no external
    // stimulus at all it is still polled a second time and concludes
    let brain = Brain::<MasterThought>::default();
    let thought = brain.think_on(main_thought(3, 2));
    brain.do_thinking();
    assert_eq!(thought.review().conclusion(), Some((3, 2)));
}

#[test]
fn unpolled_thought_stays_unconcluded() {
    let brain = Brain::<MasterThought>::default();
    let thought = brain.think_on(main_thought(9, 4));
    // no worker loop ran yet
    assert_eq!(thought.review().conclusion(), None);
}

#[test]
fn dropping_all_waker_clones_frees_task() {
    // C clones plus the original waker, all dropped without waking: the
    // thought ends with a single reference, never entered the queue and
    // was never polled
    let (sender, receiver) = channel::<MasterThought>();
    let thought = Arc::new(Thought::new(main_thought(1, 1), &sender));
    let waker = Wakeable::into_waker(&thought);
    let clones: Vec<_> = (0..5).map(|_| waker.clone()).collect();
    assert_eq!(Arc::strong_count(&thought), 7);
    drop(clones);
    drop(waker);
    assert_eq!(Arc::strong_count(&thought), 1);
    assert!(receiver.recv().is_none());
    assert_eq!(thought.review().conclusion(), None);
}

#[test]
fn wake_consumes_its_reference() {
    let (sender, receiver) = channel::<MasterThought>();
    let thought = Arc::new(Thought::new(main_thought(3, 1), &sender));
    let waker = Wakeable::into_waker(&thought);
    assert_eq!(Arc::strong_count(&thought), 2);
    waker.wake();
    // the waker's reference moved into the queue entry
    assert_eq!(Arc::strong_count(&thought), 2);
    let got = receiver.recv().expect("the wake enqueued the thought");
    assert!(Arc::ptr_eq(&got, &thought));
    assert!(receiver.recv().is_none());
    drop(got);
    assert_eq!(Arc::strong_count(&thought), 1);
}

#[test]
fn wake_by_ref_retains_its_reference() {
    let (sender, receiver) = channel::<MasterThought>();
    let thought = Arc::new(Thought::new(main_thought(3, 1), &sender));
    let waker = Wakeable::into_waker(&thought);
    waker.wake_by_ref();
    // the waker still holds its own reference, the queue got a fresh one
    assert_eq!(Arc::strong_count(&thought), 3);
    let got = receiver.recv().expect("the wake enqueued the thought");
    assert!(Arc::ptr_eq(&got, &thought));
    assert!(receiver.recv().is_none());
}

#[test]
fn extra_wakes_bounded_polls() {
    // five wake-by-reference calls on a still-parked thought before any
    // dequeue: the drain takes no more turns than wakes + 1, concludes the
    // computation exactly once, and the thought is not freed twice
    let (sender, receiver) = channel::<MasterThought>();
    let thought = Arc::new(Thought::new(main_thought(9, 3), &sender));
    sender.send(Arc::clone(&thought));
    let waker = Wakeable::into_waker(&thought);
    for _ in 0..5 {
        waker.wake_by_ref();
    }
    let mut polls = 0u64;
    while let Some(entry) = receiver.recv() {
        let turn_waker = Wakeable::into_waker(&entry);
        let (outcome, mind) = entry.think(&turn_waker);
        // a turn reports ready exactly when the state it leaves behind
        // has concluded
        assert_eq!(matches!(outcome, Outcome::Ready(())), mind.delivered);
        polls += 1;
    }
    // 5 external wakes plus 2 self-wakes: at most 8 turns can ever happen
    assert_eq!(polls, 8);
    assert_eq!(thought.review().conclusion(), Some((9, 3)));
    assert!(receiver.recv().is_none());
    drop(waker);
    assert_eq!(Arc::strong_count(&thought), 1);
}

#[test]
fn completed_thought_extra_wake_is_harmless() {
    let brain = Brain::<MasterThought>::default();
    let thought = brain.think_on(main_thought(8, 1));
    brain.do_thinking();
    assert_eq!(thought.review().conclusion(), Some((8, 1)));
    // a stale waker fires after completion: legal, and the extra poll
    // neither re-delivers nor changes the recorded conclusion
    let waker = Wakeable::into_waker(&thought);
    waker.wake();
    brain.do_thinking();
    assert_eq!(thought.review().conclusion(), Some((8, 1)));
}

#[test]
fn queue_is_fifo() {
    let (sender, receiver) = channel::<MasterThought>();
    let first = Arc::new(Thought::new(main_thought(1, 1), &sender));
    let second = Arc::new(Thought::new(main_thought(2, 1), &sender));
    sender.send(Arc::clone(&first));
    sender.send(Arc::clone(&second));
    let a = receiver.recv().expect("first entry");
    let b = receiver.recv().expect("second entry");
    assert!(Arc::ptr_eq(&a, &first));
    assert!(Arc::ptr_eq(&b, &second));
    assert!(receiver.recv().is_none());
}

#[test]
fn cloned_sender_feeds_same_queue() {
    let (sender, receiver) = channel::<MasterThought>();
    let copy = sender.clone();
    let thought = Arc::new(Thought::new(main_thought(6, 1), &sender));
    copy.send(Arc::clone(&thought));
    let got = receiver.recv().expect("the clone feeds the same queue");
    assert!(Arc::ptr_eq(&got, &thought));
}

#[test]
fn empty_brain_drains_immediately() {
    let brain = Brain::<MasterThought>::default();
    brain.do_thinking();
}

#[test]
fn give_number_counts_its_polls() {
    let (sender, _receiver) = channel::<MasterThought>();
    let thought = Arc::new(Thought::new(main_thought(0, 0), &sender));
    let waker = Wakeable::into_waker(&thought);
    let mut give = GiveNumber::new(42, 2);
    assert!(matches!(give.poll(&waker), Outcome::Pending));
    assert_eq!(give.current_tries, 1);
    assert!(matches!(give.poll(&waker), Outcome::Ready(42)));
    assert_eq!(give.current_tries, 1);
}

#[test]
fn main_thought_starts_fresh() {
    let mind = main_thought(33, 4);
    assert_eq!(mind.wait_for.number_to_give, 33);
    assert_eq!(mind.wait_for.give_after_tries, 4);
    assert_eq!(mind.wait_for.current_tries, 0);
    assert!(!mind.delivered);
    assert_eq!(mind.conclusion(), None);
}
