//! A thread's saved registers: stack pointer, base pointer and instruction
//! pointer; making a thread that starts in a function on a given stack;
//! and a busy-wait delay.
//!
//! Reading the processor's registers and jumping into a thread are machine
//! instructions left to the caller, who hands in the values read.
use vstd::prelude::*;
use vstd::wrapping::u64_specs::{wrapping_add, wrapping_sub};
use crate::terminal::{Terminal, put_chars, put_char_spec, str_bytes, word_digits};

verus! {

/// A thread: where its stack top and frame are, and where it resumes.
#[derive(Clone, Copy, Debug, PartialEq, Eq, Structural)]
pub struct Thread {
    stack_pointer: u32,
    base_pointer: u32,
    instruction_pointer: u32,
}

impl Thread {
    /// The stack pointer, base pointer and instruction pointer.
    pub closed spec fn registers(&self) -> (u32, u32, u32) {
        (self.stack_pointer, self.base_pointer, self.instruction_pointer)
    }

    /// A thread that starts at `func` on the stack at `mem` (stack and frame
    /// both at `mem`).
    pub fn new(func: u32, mem: u32) -> (r: Thread)
        ensures
            r.registers() == (mem, mem, func),
    {
        Thread { stack_pointer: mem, instruction_pointer: func, base_pointer: mem }
    }

    /// The running thread's state from its registers as just read, or
    /// `None` when the instruction pointer read is 0: that is how a thread
    /// learns it has been resumed rather than called.
    pub fn current_state_or_resumed(esp: u32, ebp: u32, eip: u32) -> (r: Option<Thread>)
        ensures
            eip == 0 ==> r is None,
            eip != 0 ==> (r matches Some(t) && t.registers() == (esp, ebp, eip)),
    {
        if eip == 0 {
            return None;
        }
        let thread = Thread { stack_pointer: esp, base_pointer: ebp, instruction_pointer: eip };
        Some(thread)
    }

    /// The stack pointer.
    pub fn stack_pointer(&self) -> (r: u32)
        ensures
            r == self.registers().0,
    {
        self.stack_pointer
    }

    /// The base pointer.
    pub fn base_pointer(&self) -> (r: u32)
        ensures
            r == self.registers().1,
    {
        self.base_pointer
    }

    /// Where the thread resumes.
    pub fn instruction_pointer(&self) -> (r: u32)
        ensures
            r == self.registers().2,
    {
        self.instruction_pointer
    }

    /// Writes `eip is 0x` and the eight hexadecimal digits of the
    /// instruction pointer and a newline to `term`, then waits a while.
    pub fn debug(&self, term: &mut Terminal)
        requires
            old(term).wf(),
        ensures
            final(term).wf(),
            final(term)@ == put_char_spec(
                put_chars(
                    put_chars(put_chars(old(term)@, str_bytes("eip is "@)), seq![48u8, 120u8] + word_digits(self.registers().2)),
                    str_bytes(""@),
                ),
                10,
            ),
    {
        term.print("eip is ");
        term.put_int(self.instruction_pointer);
        term.println("");
        wait();
    }
}

/// The last loop index of the delay.
pub const WAIT_END: u64 = 0x8ffffff;

/// The delay loop from index `i` with running sum `sum`: each step counts
/// the index up by one, adds `2 i i - 4` to the sum (both wrapping at 64
/// bits), and skips two more indices when the low byte of `213423 i` is 1.
pub open spec fn wait_from(i: u64, sum: u64) -> u64
    decreases 0x9000002 - i,
{
    if i >= WAIT_END {
        sum
    } else {
        let i1 = (i + 1) as u64;
        let s1 = wrapping_add(sum, wrapping_sub((i1 * 2 * i1) as u64, 4));
        let i2 = if ((((i1 * 213423) as u64) as u32) & 0xffu32) == 1 { (i1 + 2) as u64 } else { i1 };
        wait_from(i2, s1)
    }
}

/// Busy-waits for a while; returns the sum it computed on the way.
pub fn wait() -> (r: u64)
    ensures
        r == wait_from(0, 0),
{
    let mut i: u64 = 0;
    let mut sum: u64 = 0;
    while i < WAIT_END
        invariant
            i <= WAIT_END + 2,
            wait_from(i, sum) == wait_from(0, 0),
        decreases 0x9000002 - i,
    {
        i = i + 1;
        proof {
            vstd::arithmetic::mul::lemma_mul_upper_bound(i as int, 0x9000000, i as int, 0x9000000);
            vstd::arithmetic::mul::lemma_mul_upper_bound(i as int, 0x9000000, 213423, 213423);
            assert(i * 2 * i == 2 * (i * i)) by (nonlinear_arith);
        }
        sum = sum.wrapping_add((i * 2 * i).wrapping_sub(4));
        if (i * 213423) as u32 & 0xff == 1 {
            i = i + 2;
        }
    }
    sum
}

} // verus!
