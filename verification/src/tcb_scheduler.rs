//! A scheduler of thread control blocks that keeps the running thread at
//! the back of its queue: new threads are queued just in front of it, and
//! a switch moves the thread at the front to the back and runs it.
//!
//! Saving and swapping contexts are left to the caller, who hands in the
//! context saved and the stack's address, and swaps to the state returned.
use vstd::prelude::*;
use std::collections::VecDeque;
use crate::context::{Context, Registers};
use crate::stack::Stack;

verus! {

/// The size of a new thread's stack.
pub const STACK_SIZE: usize = 1024 * 1024;

/// A block's full state: the context's registers, stack pointer,
/// instruction pointer and own bytes; the stack's bytes in use and its room.
pub type TcbState = ((Registers, u32, u32, Seq<u8>), Seq<u8>, usize);

/// A thread control block: the thread's saved context and its stack.
pub struct Tcb {
    context: Context,
    stack: Stack,
}

impl Tcb {
    /// The state of the saved context.
    pub closed spec fn state(&self) -> (Registers, u32, u32) {
        self.context.state()
    }

    /// The full state, stack included.
    pub closed spec fn whole(&self) -> TcbState {
        (self.context.whole(), self.stack.contents(), self.stack.room())
    }

    /// The block for a thread with `context` on `stack`.
    pub fn new(context: Context, stack: Stack) -> (r: Tcb)
        ensures
            r.state() == context.state(),
            r.whole() == (context.whole(), stack.contents(), stack.room()),
    {
        Tcb { context, stack }
    }

    /// The saved context.
    pub fn context(&self) -> (r: &Context)
        ensures
            r.state() == self.state(),
            r.whole() == self.whole().0,
    {
        &self.context
    }

    /// The stack.
    pub fn stack(&self) -> (r: &Stack)
        ensures
            r.contents() == self.whole().1,
            r.room() == self.whole().2,
    {
        &self.stack
    }
}

/// The queue of blocks; the running thread's is at the back.
pub struct Scheduler {
    queue: VecDeque<Tcb>,
}

impl Scheduler {
    /// The full state of each block in the queue, front first.
    pub closed spec fn states(&self) -> Seq<TcbState> {
        Seq::new(self.queue@.len(), |i: int| self.queue@[i].whole())
    }

    /// A queue holding only `current`, the block of the thread running now.
    pub fn new(current: Tcb) -> (r: Scheduler)
        ensures
            r.states() == seq![current.whole()],
    {
        let mut queue: VecDeque<Tcb> = VecDeque::new();
        let ghost st = current.whole();
        queue.push_back(current);
        let r = Scheduler { queue };
        assert(r.states() =~= seq![st]);
        r
    }

    /// The block for a new thread that starts at `func` on `stack`, which
    /// lies at `stack_start`: its stack pointer starts at the stack's end,
    /// `stack_start` plus the stack's room (cut to 32 bits), and it keeps
    /// the registers `saved` when it was made.
    pub fn new_tcb(func: u32, stack: Stack, stack_start: usize, saved: Registers) -> (r: Tcb)
        requires
            stack_start + stack.room() <= usize::MAX,
        ensures
            r.whole() == (
                (saved, (stack_start + stack.room()) as u32, func, Seq::<u8>::empty()),
                stack.contents(),
                stack.room(),
            ),
    {
        let end = stack_start + stack.size();
        let context = Context::new(func, Vec::new(), end, saved);
        Tcb::new(context, stack)
    }

    /// The number of blocks.
    pub fn len(&self) -> (r: usize)
        ensures
            r == self.states().len(),
    {
        self.queue.len()
    }

    /// Queues `tcb` just in front of the running thread, which stays at the
    /// back. The queue must hold the running thread.
    pub fn schedule(&mut self, tcb: Tcb)
        requires
            old(self).states().len() > 0,
        ensures
            final(self).states() == old(self).states().drop_last().push(tcb.whole()).push(
                old(self).states().last(),
            ),
    {
        let ghost st = tcb.whole();
        let current = self.queue.pop_back().unwrap();
        self.queue.push_back(tcb);
        self.queue.push_back(current);
        assert(self.states() =~= old(self).states().drop_last().push(st).push(old(self).states().last()));
    }

    /// Ends the running thread: its block (at the back) is dropped and the
    /// thread at the front moves to the back, to run next; returns that
    /// thread's saved state to swap to. Where the running thread's block is
    /// the only one, it stays, and its own saved state is returned. The
    /// queue must not be empty.
    pub fn unschedule_current(&mut self) -> (r: (Registers, u32, u32))
        requires
            old(self).states().len() > 0,
        ensures
            r == (old(self).states()[0].0.0, old(self).states()[0].0.1, old(self).states()[0].0.2),
            old(self).states().len() == 1 ==> final(self).states() == old(self).states(),
            old(self).states().len() >= 2 ==> final(self).states() == old(self).states().drop_last().drop_first().push(
                old(self).states()[0],
            ),
    {
        let many = self.queue.len() >= 2;
        if many {
            let _finished = self.queue.pop_back();
        }
        let next = self.queue.pop_front().unwrap();
        let c = next.context();
        let r = (c.registers(), c.esp(), c.instruction_pointer());
        proof {
            c.lemma_whole();
        }
        self.queue.push_back(next);
        proof {
            if many {
                assert(self.states() =~= old(self).states().drop_last().drop_first().push(old(self).states()[0]));
            } else {
                assert(self.states() =~= old(self).states());
            }
        }
        r
    }

    /// Switches from the running thread, whose context was saved as
    /// `saved`, to the thread at the front: the running thread's block (at
    /// the back) keeps `saved`, and the front block moves to the back, to
    /// run next; returns that thread's saved state to swap to. The queue
    /// must hold another thread besides the running one.
    pub fn switch(&mut self, saved: Context) -> (r: (Registers, u32, u32))
        requires
            old(self).states().len() >= 2,
        ensures
            r == (old(self).states()[0].0.0, old(self).states()[0].0.1, old(self).states()[0].0.2),
            final(self).states() == old(self).states().drop_first().drop_last().push(
                (saved.whole(), old(self).states().last().1, old(self).states().last().2),
            ).push(old(self).states()[0]),
    {
        let ghost st = saved.whole();
        let next = self.queue.pop_front().unwrap();
        let current = self.queue.pop_back().unwrap();
        let c = next.context();
        let r = (c.registers(), c.esp(), c.instruction_pointer());
        proof {
            c.lemma_whole();
        }
        let updated = Tcb { context: saved, stack: current.stack };
        self.queue.push_back(updated);
        self.queue.push_back(next);
        assert(self.states() =~= old(self).states().drop_first().drop_last().push(
            (st, old(self).states().last().1, old(self).states().last().2),
        ).push(old(self).states()[0]));
        r
    }
}

/// Scheduling keeps the running thread at the back of the queue, with the
/// new thread just in front of it.
pub proof fn lemma_schedule_keeps_current_last(q: Seq<TcbState>, t: TcbState)
    requires
        q.len() > 0,
    ensures
        ({
            let q2 = q.drop_last().push(t).push(q.last());
            &&& q2.len() == q.len() + 1
            &&& q2.last() == q.last()
            &&& q2[q2.len() - 2] == t
            &&& q2.subrange(0, q.len() - 1) == q.drop_last()
        }),
{
    let q2 = q.drop_last().push(t).push(q.last());
    assert(q2.subrange(0, q.len() - 1) =~= q.drop_last());
}

/// A switch keeps every block: the thread switched to is at the back, the
/// one switched from just in front of it with its stack, and the others in
/// order before them.
pub proof fn lemma_switch_keeps_blocks(q: Seq<TcbState>, saved: (Registers, u32, u32, Seq<u8>))
    requires
        q.len() >= 2,
    ensures
        ({
            let q2 = q.drop_first().drop_last().push((saved, q.last().1, q.last().2)).push(q[0]);
            &&& q2.len() == q.len()
            &&& q2.last() == q[0]
            &&& q2[q2.len() - 2].1 == q.last().1
            &&& q2[q2.len() - 2].2 == q.last().2
            &&& forall|i: int| 0 <= i < q.len() - 2 ==> q2[i] == q[i + 1]
        }),
{
}

} // verus!
