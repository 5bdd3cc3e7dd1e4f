//! A round-robin scheduler of threads: new threads get a stack from the
//! kernel heap and join the back of the queue; switching puts the running
//! thread at the back and resumes the one at the front.
//!
//! Capturing the running thread's registers and jumping into a thread are
//! left to the caller, who hands in the state captured and resumes the
//! thread returned.
use vstd::prelude::*;
use std::collections::VecDeque;
use crate::allocator::{GoodEnoughForNow, malloc, wrap_add};
use crate::terminal::{Terminal, put_chars, str_bytes};
use crate::thread::Thread;

verus! {

/// The size of a new thread's stack.
pub const STACK_SIZE: usize = 1024 * 10;

/// The threads waiting to run, front first.
pub struct Scheduler {
    queue: VecDeque<Thread>,
}

impl View for Scheduler {
    type V = Seq<Thread>;

    closed spec fn view(&self) -> Seq<Thread> {
        self.queue@
    }
}

impl Scheduler {
    /// No thread waiting.
    pub fn new() -> (r: Scheduler)
        ensures
            r@ == Seq::<Thread>::empty(),
    {
        Scheduler { queue: VecDeque::new() }
    }

    /// The number of waiting threads.
    pub fn len(&self) -> (r: usize)
        ensures
            r == self@.len(),
    {
        self.queue.len()
    }

    /// Queues a thread that starts at `func` on a stack of `STACK_SIZE`
    /// bytes from `heap` (its address cut to 32 bits; 0 when the heap has
    /// no room, which `malloc` reports on `term`).
    pub fn schedule(&mut self, heap: &mut GoodEnoughForNow, term: &mut Terminal, func: u32)
        requires
            old(term).wf(),
        ensures
            final(term).wf(),
            STACK_SIZE >= old(heap).size() ==> *final(heap) == *old(heap)
                && final(term)@ == put_chars(old(term)@, str_bytes("no mem left :("@)),
            STACK_SIZE < old(heap).size() ==> final(term)@ == old(term)@,
            STACK_SIZE < old(heap).size() ==> {
                &&& final(heap).current() == wrap_add(old(heap).current(), STACK_SIZE)
                &&& final(heap).size() == old(heap).size()
            },
            final(self)@.len() == old(self)@.len() + 1,
            final(self)@.drop_last() == old(self)@,
            final(self)@.last().registers() == (
                if STACK_SIZE < old(heap).size() { old(heap).current() as u32 } else { 0u32 },
                if STACK_SIZE < old(heap).size() { old(heap).current() as u32 } else { 0u32 },
                func,
            ),
    {
        let mem = malloc(heap, STACK_SIZE, term);
        let t = Thread::new(func, mem as u32);
        self.queue.push_back(t);
        assert(self@.drop_last() =~= old(self)@);
    }

    /// Switches away from the running thread, whose state was just captured
    /// as `current`: `None` means the capture found the thread resumed, and
    /// there is nothing to do. Otherwise the running thread goes to the
    /// back of the queue and the thread at the front is returned to be
    /// resumed.
    pub fn switch(&mut self, current: Option<Thread>) -> (r: Option<Thread>)
        ensures
            current is None ==> r is None && final(self)@ == old(self)@,
            current matches Some(c) ==> {
                &&& r == Some(old(self)@.push(c)[0])
                &&& final(self)@ == old(self)@.push(c).drop_first()
            },
    {
        match current {
            Some(thread) => {
                self.queue.push_back(thread);
            },
            None => {
                return None;
            },
        }
        let next = self.queue.pop_front();
        assert(self@ =~= old(self)@.push(current.unwrap()).drop_first());
        next
    }

    /// Takes the thread at the front of the queue, to be resumed in place
    /// of the running one, which is dropped. The queue must not be empty.
    pub fn unschedule_current(&mut self) -> (r: Thread)
        requires
            old(self)@.len() > 0,
        ensures
            r == old(self)@[0],
            final(self)@ == old(self)@.drop_first(),
    {
        let r = self.queue.pop_front();
        assert(self@ =~= old(self)@.drop_first());
        r.unwrap()
    }
}

/// A switch loses no thread and makes none up: the queue with the running
/// thread at its back holds what the new queue holds plus the thread resumed.
pub proof fn lemma_switch_keeps_threads(q: Seq<Thread>, c: Thread, q2: Seq<Thread>, r: Thread)
    requires
        r == q.push(c)[0],
        q2 == q.push(c).drop_first(),
    ensures
        q.push(c) == seq![r] + q2,
        q.push(c).to_multiset() == q2.to_multiset().insert(r),
{
    broadcast use vstd::multiset::group_multiset_axioms;

    assert(q.push(c) =~= seq![r] + q2);
    vstd::seq_lib::lemma_multiset_commutative(seq![r], q2);
    assert(seq![r] =~= Seq::<Thread>::empty().push(r));
    vstd::seq_lib::to_multiset_build(Seq::<Thread>::empty(), r);
    assert(Seq::<Thread>::empty().to_multiset() =~= vstd::multiset::Multiset::empty()) by {
        vstd::seq_lib::to_multiset_len(Seq::<Thread>::empty());
    }
    assert(q.push(c).to_multiset() =~= q2.to_multiset().insert(r));
}

/// Threads are resumed in the order they were queued: a thread queued
/// behind `k` others is resumed by the `k + 1`st switch, whatever the
/// running threads put at the back meanwhile.
pub proof fn lemma_switch_order(q: Seq<Thread>, c: Thread, k: int)
    requires
        0 < k < q.len(),
    ensures
        q.push(c).drop_first()[k - 1] == q[k],
{
}

} // verus!
