//! A thread's saved execution context: its general registers, stack
//! pointer and instruction pointer, and the stack it owns.
//!
//! Saving and restoring a context are machine instructions left to the
//! caller, who hands in the registers saved.
use vstd::prelude::*;
use vstd::string::StringSliceAdditionalSpecFns;
use crate::console::{Terminal, console_put_chars};
use crate::log::{log_bytes, log_line, push_all};

verus! {

/// The general registers a context keeps.
#[derive(Clone, Copy, Debug, PartialEq, Eq, Structural)]
pub struct Registers {
    pub eax: u32,
    pub ebx: u32,
    pub ecx: u32,
    pub edx: u32,
    pub ebp: u32,
    pub esi: u32,
    pub edi: u32,
}

/// The registers of a context that has never run: recognisable values, and
/// an impossible base pointer.
pub open spec fn initial_registers() -> Registers {
    Registers { eax: 1, ebx: 2, ecx: 3, edx: 4, ebp: 0xffffffff, esi: 6, edi: 7 }
}

/// The lower-case hexadecimal digit for `n` below 16.
pub open spec fn lower_hex_digit(n: int) -> u8 {
    if n < 10 { (48 + n) as u8 } else { (87 + n) as u8 }
}

/// The lower-case hexadecimal digits of `w`, most significant first,
/// without leading zeros (one `0` for zero).
pub open spec fn lower_hex(w: nat) -> Seq<u8>
    decreases w,
{
    if w < 16 { seq![lower_hex_digit(w as int)] } else { lower_hex(w / 16).push(lower_hex_digit((w % 16) as int)) }
}

/// The lower-case hexadecimal digits of `w`, without leading zeros.
pub fn format_hex(w: u32) -> (r: Vec<u8>)
    ensures
        r@ == lower_hex(w as nat),
    decreases w,
{
    let d: u8 = (w % 16) as u8;
    let digit: u8 = if d < 10 { 48 + d } else { 87 + d };
    if w < 16 {
        let v: Vec<u8> = vec![digit];
        assert(v@ =~= lower_hex(w as nat));
        v
    } else {
        let mut v = format_hex(w / 16);
        v.push(digit);
        v
    }
}

/// The debug line logged from line `line` of this file with `message`.
pub open spec fn debug_at(line: nat, message: Seq<u8>) -> Seq<u8> {
    log_line("DEBUG".spec_bytes(), "src/context.rs".spec_bytes(), line, message)
}

/// The lines `debug` writes for a context at `address` with instruction
/// pointer `eip` and stack pointer `esp`: three debug lines, logged from
/// lines 175, 179 and 183 of this file.
pub open spec fn debug_lines(address: u32, eip: u32, esp: u32) -> Seq<u8> {
    debug_at(175, "   self is 0x".spec_bytes() + lower_hex(address as nat)) + debug_at(
        179,
        "   eip is 0x".spec_bytes() + lower_hex(eip as nat),
    ) + debug_at(183, "   esp is 0x".spec_bytes() + lower_hex(esp as nat))
}

/// A saved context.
pub struct Context {
    regs: Registers,
    esp: u32,
    instruction_pointer: u32,
    stack: Vec<u8>,
}

impl Context {
    /// The saved registers, stack pointer and instruction pointer.
    pub closed spec fn state(&self) -> (Registers, u32, u32) {
        (self.regs, self.esp, self.instruction_pointer)
    }

    /// The full state is the saved state and the stack.
    pub proof fn lemma_whole(&self)
        ensures
            self.whole() == (self.state().0, self.state().1, self.state().2, self.stack_spec()),
    {
    }

    /// The saved state with the stack: registers, stack pointer,
    /// instruction pointer and the stack's bytes.
    pub closed spec fn whole(&self) -> (Registers, u32, u32, Seq<u8>) {
        (self.regs, self.esp, self.instruction_pointer, self.stack@)
    }

    /// The stack the context owns.
    pub closed spec fn stack_spec(&self) -> Seq<u8> {
        self.stack@
    }

    /// The registers of a context that has never run.
    pub fn empty_regs() -> (r: Registers)
        ensures
            r == initial_registers(),
    {
        Registers { eax: 1, ebx: 2, ecx: 3, edx: 4, ebp: 0xffffffff, esi: 6, edi: 7 }
    }

    /// A context that has never run, with no stack, at instruction 0.
    pub fn empty() -> (r: Context)
        ensures
            r.state() == (initial_registers(), 0u32, 0u32),
            r.stack_spec() == Seq::<u8>::empty(),
            r.whole() == (initial_registers(), 0u32, 0u32, Seq::<u8>::empty()),
    {
        Context { stack: Vec::new(), instruction_pointer: 0, regs: Context::empty_regs(), esp: 0 }
    }

    /// A context that starts at `func` on `stack` with stack pointer `esp`
    /// (cut to 32 bits), keeping the registers `saved` that were saved when
    /// it was made.
    pub fn new(func: u32, stack: Vec<u8>, esp: usize, saved: Registers) -> (r: Context)
        ensures
            r.state() == (saved, esp as u32, func),
            r.stack_spec() == stack@,
            r.whole() == (saved, esp as u32, func, stack@),
    {
        let mut t = Context::empty();
        t.regs = saved;
        t.esp = esp as u32;
        t.stack = stack;
        t.instruction_pointer = func;
        t
    }

    /// The saved stack pointer.
    pub fn esp(&self) -> (r: u32)
        ensures
            r == self.state().1,
    {
        self.esp
    }

    /// Where the context resumes.
    pub fn instruction_pointer(&self) -> (r: u32)
        ensures
            r == self.state().2,
    {
        self.instruction_pointer
    }

    /// Logs to the console where the context lies (`address`), and its
    /// instruction and stack pointers, in lower-case hexadecimal, one debug
    /// line each (see `debug_lines`).
    pub fn debug(&self, term: &mut Terminal, address: u32)
        requires
            old(term).wf(),
        ensures
            final(term).wf(),
            final(term)@ == console_put_chars(old(term)@, debug_lines(address, self.state().2, self.state().1)),
    {
        let mut text: Vec<u8> = Vec::new();
        let mut m: Vec<u8> = Vec::new();
        push_all(&mut m, "   self is 0x".as_bytes());
        push_all(&mut m, format_hex(address).as_slice());
        push_all(&mut text, log_bytes("DEBUG", "src/context.rs", 175, m.as_slice()).as_slice());
        let mut m: Vec<u8> = Vec::new();
        push_all(&mut m, "   eip is 0x".as_bytes());
        push_all(&mut m, format_hex(self.instruction_pointer).as_slice());
        push_all(&mut text, log_bytes("DEBUG", "src/context.rs", 179, m.as_slice()).as_slice());
        let mut m: Vec<u8> = Vec::new();
        push_all(&mut m, "   esp is 0x".as_bytes());
        push_all(&mut m, format_hex(self.esp).as_slice());
        push_all(&mut text, log_bytes("DEBUG", "src/context.rs", 183, m.as_slice()).as_slice());
        assert(text@ =~= debug_lines(address, self.instruction_pointer, self.esp));
        term.write(text.as_slice());
    }

    /// The saved registers.
    pub fn registers(&self) -> (r: Registers)
        ensures
            r == self.state().0,
    {
        self.regs
    }
}

} // verus!
