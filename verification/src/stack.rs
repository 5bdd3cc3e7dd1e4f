//! A thread's stack: a block of memory owned by the thread.
use vstd::prelude::*;

verus! {

/// A stack with room for a given number of bytes.
pub struct Stack {
    v: Vec<u8>,
    size: usize,
}

impl Stack {
    /// The bytes in use: none when the stack is made.
    pub closed spec fn contents(&self) -> Seq<u8> {
        self.v@
    }

    /// The number of bytes the stack was made with room for.
    pub closed spec fn room(&self) -> usize {
        self.size
    }

    /// A stack with room for `size` bytes.
    pub fn new(size: usize) -> (r: Stack)
        ensures
            r.contents() == Seq::<u8>::empty(),
            r.room() == size,
    {
        Stack { v: Vec::with_capacity(size), size }
    }

    /// The bytes in use, as a slice of the stack's memory (where the stack
    /// starts).
    pub fn as_slice(&self) -> (r: &[u8])
        ensures
            r@ == self.contents(),
    {
        self.v.as_slice()
    }

    /// The number of bytes the stack was made with room for.
    pub fn size(&self) -> (r: usize)
        ensures
            r == self.room(),
    {
        self.size
    }
}

} // verus!
