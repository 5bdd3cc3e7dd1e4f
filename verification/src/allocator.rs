//! The kernel heap: a simple allocator that hands out consecutive blocks
//! from a start address and never takes memory back. A request is refused
//! only when it alone is at least as large as the whole heap.
//!
//! Addresses are plain integers; the address arithmetic wraps around at the
//! top of the address space as the machine's does. Moving the bytes of a
//! reallocated block is left to the caller, who owns the memory.
use vstd::prelude::*;
use crate::terminal::{Screen, Terminal, put_chars, str_bytes};

verus! {

/// An allocator of blocks of memory.
pub trait Allocator: Sized {
    /// `after` and `r` are a possible outcome of allocating `size` bytes from `before`.
    spec fn allocates(before: Self, size: usize, after: Self, r: Option<usize>) -> bool;

    /// `after` is a possible outcome of giving back the block at `ptr`.
    spec fn frees(before: Self, ptr: usize, after: Self) -> bool;

    /// `after` is what the terminal `before` shows once an allocation has
    /// given `r` (a refusal is reported there).
    spec fn reports(r: Option<usize>, before: Screen, after: Screen) -> bool;

    /// The start of the free memory and the size of the heap.
    spec fn debug_view(&self) -> (usize, usize);

    /// A block of `size` bytes, or `None` when none is left (reported on
    /// `term`).
    fn allocate(&mut self, size: usize, term: &mut Terminal) -> (r: Option<usize>)
        requires
            old(term).wf(),
        ensures
            final(term).wf(),
            Self::allocates(*old(self), size, *final(self), r),
            Self::reports(r, old(term)@, final(term)@),
    ;

    /// Gives back the block at `ptr`.
    fn free(&mut self, ptr: usize)
        ensures
            Self::frees(*old(self), ptr, *final(self)),
    ;

    /// The start of the free memory and the size of the heap.
    fn debug(&mut self) -> (r: (usize, usize))
        ensures
            *final(self) == *old(self),
            r == old(self).debug_view(),
    ;
}

/// The next free address and the size of the heap.
pub struct GoodEnoughForNow {
    current: usize,
    size: usize,
}

/// `a + b` wrapped to the width of an address.
pub open spec fn wrap_add(a: usize, b: usize) -> usize {
    if a + b <= usize::MAX { (a + b) as usize } else { (a + b - usize::MAX - 1) as usize }
}

impl GoodEnoughForNow {
    /// The next address handed out.
    pub closed spec fn current(&self) -> usize {
        self.current
    }

    /// The size of the heap.
    pub closed spec fn size(&self) -> usize {
        self.size
    }

    /// A heap of `size` bytes from `start`.
    pub fn new(start: usize, size: usize) -> (r: GoodEnoughForNow)
        ensures
            r.current() == start,
            r.size() == size,
    {
        GoodEnoughForNow { current: start, size }
    }
}

impl Allocator for GoodEnoughForNow {
    /// A request at least as large as the heap is refused; any other gets
    /// the next address, and the next address moves on by `size`.
    open spec fn allocates(before: Self, size: usize, after: Self, r: Option<usize>) -> bool {
        if size >= before.size() {
            r == None::<usize> && after == before
        } else {
            &&& r == Some(before.current())
            &&& after.current() == wrap_add(before.current(), size)
            &&& after.size() == before.size()
        }
    }

    /// The heap never takes memory back: freeing changes nothing.
    open spec fn frees(before: Self, ptr: usize, after: Self) -> bool {
        after == before
    }

    /// A refusal writes `no mem left :(`; a block leaves the terminal alone.
    open spec fn reports(r: Option<usize>, before: Screen, after: Screen) -> bool {
        match r {
            None => after == put_chars(before, str_bytes("no mem left :("@)),
            Some(_) => after == before,
        }
    }

    open spec fn debug_view(&self) -> (usize, usize) {
        (self.current(), self.size())
    }

    fn allocate(&mut self, size: usize, term: &mut Terminal) -> (r: Option<usize>) {
        if size >= self.size {
            term.print("no mem left :(");
            None
        } else {
            let ptr = self.current;
            self.current = self.current.wrapping_add(size);
            Some(ptr)
        }
    }

    fn free(&mut self, _ptr: usize) {
    }

    fn debug(&mut self) -> (r: (usize, usize)) {
        (self.current, self.size)
    }
}

/// Blocks handed out one after the other, with no wrap past the top of the
/// address space, follow each other without overlapping.
pub proof fn lemma_allocations_consecutive(
    b0: GoodEnoughForNow,
    s1: usize,
    b1: GoodEnoughForNow,
    p1: usize,
    s2: usize,
    b2: GoodEnoughForNow,
    p2: usize,
)
    requires
        GoodEnoughForNow::allocates(b0, s1, b1, Some(p1)),
        GoodEnoughForNow::allocates(b1, s2, b2, Some(p2)),
        b0.current() + s1 <= usize::MAX,
    ensures
        p1 == b0.current(),
        p2 == p1 + s1,
        b2.current() == wrap_add(p2, s2),
{
}

/// A request is refused exactly when it is at least the size of the heap,
/// and a refusal changes nothing.
pub proof fn lemma_refused_iff_too_large(before: GoodEnoughForNow, size: usize, after: GoodEnoughForNow, r: Option<usize>)
    requires
        GoodEnoughForNow::allocates(before, size, after, r),
    ensures
        (r is None) <==> size >= before.size(),
        r is None ==> after == before,
{
}

/// `a - b` wrapped to the width of an address.
pub open spec fn wrap_sub(a: usize, b: usize) -> usize {
    if b <= a { (a - b) as usize } else { (a - b + usize::MAX + 1) as usize }
}

/// Makes `heap` the `stop - start` bytes from `start` (the size wraps
/// round where `stop` lies below `start`).
pub fn set_allocator(heap: &mut GoodEnoughForNow, start: usize, stop: usize)
    ensures
        final(heap).current() == start,
        final(heap).size() == wrap_sub(stop, start),
{
    *heap = GoodEnoughForNow::new(start, stop.wrapping_sub(start));
}

/// The address of a new block of `size` bytes, or 0 when none is left; a
/// refusal is reported on `term` as `no mem left :(`.
pub fn malloc(heap: &mut GoodEnoughForNow, size: usize, term: &mut Terminal) -> (r: usize)
    requires
        old(term).wf(),
    ensures
        final(term).wf(),
        size >= old(heap).size() ==> {
            &&& r == 0
            &&& *final(heap) == *old(heap)
            &&& final(term)@ == put_chars(old(term)@, str_bytes("no mem left :("@))
        },
        size < old(heap).size() ==> {
            &&& r == old(heap).current()
            &&& final(heap).current() == wrap_add(old(heap).current(), size)
            &&& final(heap).size() == old(heap).size()
            &&& final(term)@ == old(term)@
        },
{
    match heap.allocate(size, term) {
        Some(ptr) => ptr,
        _ => 0,
    }
}

/// Gives back the block at `ptr` (which this heap never reuses).
pub fn free(heap: &mut GoodEnoughForNow, ptr: usize)
    ensures
        GoodEnoughForNow::frees(*old(heap), ptr, *final(heap)),
        *final(heap) == *old(heap),
{
    heap.free(ptr)
}

/// The address of a new block of `size` bytes for the one at `old_ptr`, or 0
/// when none is left (reported on `term` as for `malloc`); the caller
/// copies the old bytes over.
pub fn realloc(heap: &mut GoodEnoughForNow, old_ptr: usize, size: usize, term: &mut Terminal) -> (r: usize)
    requires
        old(term).wf(),
    ensures
        final(term).wf(),
        size >= old(heap).size() ==> {
            &&& r == 0
            &&& *final(heap) == *old(heap)
            &&& final(term)@ == put_chars(old(term)@, str_bytes("no mem left :("@))
        },
        size < old(heap).size() ==> {
            &&& r == old(heap).current()
            &&& final(heap).current() == wrap_add(old(heap).current(), size)
            &&& final(heap).size() == old(heap).size()
            &&& final(term)@ == old(term)@
        },
{
    let new = malloc(heap, size, term);
    new
}

} // verus!
