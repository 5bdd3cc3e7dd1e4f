//! A round-robin scheduler of saved contexts: a new thread gets a
//! one-megabyte stack and joins the queue; switching saves the running
//! context at the back and restores the one at the front.
//!
//! Allocating the stack, saving the running context and restoring one are
//! left to the caller, who hands in the stack, its address and the state
//! saved, and restores the context returned.
use vstd::prelude::*;
use std::collections::VecDeque;
use crate::context::{Context, Registers};

verus! {

/// The size of a new thread's stack.
pub const STACK_SIZE: usize = 1024 * 1024;

/// The contexts waiting to run, front first.
pub struct Scheduler {
    queue: VecDeque<Context>,
}

/// A context's full saved state: registers, stack pointer, instruction
/// pointer and stack.
pub type Saved = (Registers, u32, u32, Seq<u8>);

impl Scheduler {
    /// Each waiting context's registers, stack pointer, instruction pointer
    /// and stack, front first.
    pub closed spec fn states(&self) -> Seq<Saved> {
        Seq::new(self.queue@.len(), |i: int| self.queue@[i].whole())
    }

    /// No context waiting.
    pub fn new() -> (r: Scheduler)
        ensures
            r.states() == Seq::<Saved>::empty(),
    {
        let r = Scheduler { queue: VecDeque::new() };
        assert(r.states() =~= Seq::<Saved>::empty());
        r
    }

    /// Queues a thread that starts at `func` on `stack`, which lies at
    /// `stack_addr`: its stack pointer starts at the stack's top,
    /// `stack_addr + STACK_SIZE` (cut to 32 bits). `saved` are the
    /// registers saved when the context was made.
    pub fn schedule(&mut self, func: u32, stack: Vec<u8>, stack_addr: usize, saved: Registers)
        requires
            stack_addr + STACK_SIZE <= usize::MAX,
        ensures
            final(self).states() == old(self).states().push(
                (saved, (stack_addr + STACK_SIZE) as u32, func, stack@),
            ),
    {
        let ghost bytes = stack@;
        let t = Context::new(func, stack, stack_addr + STACK_SIZE, saved);
        self.queue.push_back(t);
        assert(self.states() =~= old(self).states().push((saved, (stack_addr + STACK_SIZE) as u32, func, bytes)));
    }

    /// The number of waiting entries.
    pub fn len(&self) -> (r: usize)
        ensures
            r == self.states().len(),
    {
        self.queue.len()
    }

    /// Takes the context at the front of the queue, to be restored in place
    /// of the running one. The queue must not be empty.
    pub fn unschedule_current(&mut self) -> (r: Context)
        requires
            old(self).states().len() > 0,
        ensures
            r.whole() == old(self).states()[0],
            final(self).states() == old(self).states().drop_first(),
    {
        let r = self.queue.pop_front();
        assert(self.states() =~= old(self).states().drop_first());
        r.unwrap()
    }

    /// Switches away from the running context: `resumed` tells that the
    /// save found the context resumed, and there is nothing to do;
    /// otherwise `saved` (the running context) goes to the back of the
    /// queue and the context at the front is returned to be restored.
    pub fn switch(&mut self, saved: Context, resumed: bool) -> (r: Option<Context>)
        ensures
            resumed ==> r is None && final(self).states() == old(self).states(),
            !resumed ==> (r matches Some(c) && c.whole() == old(self).states().push(saved.whole())[0])
                && final(self).states() == old(self).states().push(saved.whole()).drop_first(),
    {
        if resumed {
            return None;
        }
        let ghost st = saved.whole();
        self.queue.push_back(saved);
        let t = self.queue.pop_front();
        assert(self.states() =~= old(self).states().push(st).drop_first());
        t
    }
}

} // verus!
