//! A bump-pointer heap: the free region `[start, stop)` shrinks from the
//! bottom as blocks are handed out; nothing is ever given back.
//!
//! Addresses are plain integers. Moving the bytes of a reallocated block is
//! left to the caller, who owns the memory.
use vstd::prelude::*;

verus! {

/// An allocator of aligned blocks of memory.
pub trait Allocator: Sized {
    /// `after` and `r` are a possible outcome of allocating `size` bytes
    /// aligned to `align` from `before`.
    spec fn allocates(before: Self, size: usize, align: usize, after: Self, r: Option<usize>) -> bool;

    /// `after` is a possible outcome of giving back the block at `ptr`.
    spec fn deallocates(before: Self, ptr: usize, old_size: usize, align: usize, after: Self) -> bool;

    /// A block of `size` bytes aligned to `align`, or `None` when none is left.
    fn allocate(&mut self, size: usize, align: usize) -> (r: Option<usize>)
        requires
            align > 0,
        ensures
            Self::allocates(*old(self), size, align, *final(self), r),
    ;

    /// Gives back the block at `ptr` of `old_size` bytes.
    fn deallocate(&mut self, ptr: usize, old_size: usize, align: usize)
        ensures
            Self::deallocates(*old(self), ptr, old_size, align, *final(self)),
    ;

    /// A new block of `size` bytes for the one at `ptr`: the allocator
    /// allocates it and, when it succeeds, gives the old block back. The
    /// caller copies the `old_size` bytes from `ptr` to the new block.
    fn reallocate(&mut self, ptr: usize, old_size: usize, size: usize, align: usize) -> (r: Option<usize>)
        requires
            align > 0,
        ensures
            exists|mid: Self|
                #![trigger Self::allocates(*old(self), size, align, mid, r)]
                Self::allocates(*old(self), size, align, mid, r) && (match r {
                    Some(_) => Self::deallocates(mid, ptr, old_size, align, *final(self)),
                    None => *final(self) == mid,
                }),
    {
        let ghost before = *self;
        let attempt = self.allocate(size, align);
        let ghost mid = *self;
        if let Some(_) = attempt {
            self.deallocate(ptr, old_size, align);
        }
        assert(Self::allocates(before, size, align, mid, attempt));
        attempt
    }

    /// How many bytes the block at `ptr` can grow to without moving: its
    /// present size.
    fn reallocate_inplace(&mut self, _ptr: usize, old_size: usize, _size: usize, _align: usize) -> (r: usize)
        ensures
            r == old_size,
            *final(self) == *old(self),
    {
        old_size
    }

    /// How many bytes a request of `size` bytes really gets: `size`.
    fn usable_size(&mut self, size: usize, _align: usize) -> (r: usize)
        ensures
            r == size,
            *final(self) == *old(self),
    {
        size
    }

    /// The start of the free region and the number of bytes left in it.
    fn debug(&mut self) -> (r: (usize, usize));
}

/// The smallest multiple of `align` at or above `addr`.
pub open spec fn round_up(addr: int, align: int) -> int {
    (addr + align - 1) - (addr + align - 1) % align
}

/// The free region `[start, stop)`.
pub struct BumpPointer {
    start: usize,
    stop: usize,
}

impl BumpPointer {
    /// The first free address.
    pub closed spec fn start(&self) -> int {
        self.start as int
    }

    /// The end of the free region.
    pub closed spec fn stop(&self) -> int {
        self.stop as int
    }

    /// Both ends of the region are addresses.
    pub proof fn lemma_bounds(&self)
        ensures
            0 <= self.start() <= usize::MAX,
            0 <= self.stop() <= usize::MAX,
    {
    }

    /// An allocator handing out `[start, stop)`.
    pub fn new(start: usize, stop: usize) -> (r: BumpPointer)
        ensures
            r.start() == start,
            r.stop() == stop,
    {
        BumpPointer { start, stop }
    }
}

/// The outcome of allocating `size` bytes aligned to `align` from the
/// region `[start, stop)`: the block starts at the first aligned address,
/// and it is handed out when it ends at or before `stop`, the free region
/// then starting at its end.
pub open spec fn bump_allocates(before: BumpPointer, size: usize, align: usize, after: BumpPointer, r: Option<usize>) -> bool {
    let aligned = round_up(before.start(), align as int);
    if aligned + size > before.stop() {
        r == None::<usize> && after == before
    } else {
        r == Some(aligned as usize) && after.start() == aligned + size && after.stop() == before.stop()
    }
}

impl Allocator for BumpPointer {
    open spec fn allocates(before: Self, size: usize, align: usize, after: Self, r: Option<usize>) -> bool {
        bump_allocates(before, size, align, after, r)
    }

    open spec fn deallocates(before: Self, ptr: usize, old_size: usize, align: usize, after: Self) -> bool {
        after == before
    }

    fn allocate(&mut self, size: usize, align: usize) -> (r: Option<usize>) {
        let a: u128 = self.start as u128 + align as u128 - 1;
        let aligned: u128 = a - a % (align as u128);
        let new_start: u128 = aligned + size as u128;
        if new_start > self.stop as u128 {
            None
        } else {
            self.start = new_start as usize;
            Some(aligned as usize)
        }
    }

    fn deallocate(&mut self, _ptr: usize, _old_size: usize, _align: usize) {
    }

    fn debug(&mut self) -> (r: (usize, usize))
        ensures
            *final(self) == *old(self),
            r.0 == old(self).start(),
            old(self).start() <= old(self).stop() ==> r.1 == old(self).stop() - old(self).start(),
            old(self).start() > old(self).stop() ==> r.1 == old(self).stop() - old(self).start()
                + usize::MAX + 1,
    {
        (self.start, self.stop.wrapping_sub(self.start))
    }
}

/// A block handed out is aligned, lies in the free region, and the free
/// region afterwards starts where the block ends.
pub proof fn lemma_allocation_in_region(before: BumpPointer, size: usize, align: usize, after: BumpPointer, p: usize)
    requires
        align > 0,
        bump_allocates(before, size, align, after, Some(p)),
    ensures
        p % align == 0,
        before.start() <= p < before.start() + align,
        p + size <= before.stop(),
        after.start() == p + size,
        after.stop() == before.stop(),
{
    let a = before.start() + align - 1;
    assert(0 <= a % (align as int) < align);
    assert((a - a % (align as int)) % (align as int) == 0) by {
        vstd::arithmetic::div_mod::lemma_fundamental_div_mod(a, align as int);
        vstd::arithmetic::div_mod::lemma_mod_multiples_basic(a / (align as int), align as int);
    }
}

/// Two blocks handed out one after the other do not overlap: the second
/// starts at or after the end of the first.
pub proof fn lemma_allocations_disjoint(
    b0: BumpPointer,
    s1: usize,
    a1: usize,
    b1: BumpPointer,
    p1: usize,
    s2: usize,
    a2: usize,
    b2: BumpPointer,
    p2: usize,
)
    requires
        a1 > 0,
        a2 > 0,
        bump_allocates(b0, s1, a1, b1, Some(p1)),
        bump_allocates(b1, s2, a2, b2, Some(p2)),
    ensures
        p1 + s1 <= p2,
        p2 + s2 <= b0.stop(),
        b0.start() <= p1,
{
    lemma_allocation_in_region(b0, s1, a1, b1, p1);
    lemma_allocation_in_region(b1, s2, a2, b2, p2);
}

/// `states` are the allocators after each of the requests `reqs` (size,
/// alignment) in turn from `b0`, and `outs` what each request got.
pub open spec fn bump_run(
    b0: BumpPointer,
    reqs: Seq<(usize, usize)>,
    outs: Seq<Option<usize>>,
    states: Seq<BumpPointer>,
) -> bool {
    &&& states.len() == reqs.len() + 1
    &&& outs.len() == reqs.len()
    &&& states[0] == b0
    &&& forall|k: int|
        0 <= k < reqs.len() ==> #[trigger] reqs[k].1 > 0 && bump_allocates(
            states[k],
            reqs[k].0,
            reqs[k].1,
            states[k + 1],
            outs[k],
        )
}

/// Along a run of requests the free region only shrinks from the bottom:
/// its start never goes down and its end stays.
pub proof fn lemma_run_monotone(
    b0: BumpPointer,
    reqs: Seq<(usize, usize)>,
    outs: Seq<Option<usize>>,
    states: Seq<BumpPointer>,
    k: int,
    m: int,
)
    requires
        bump_run(b0, reqs, outs, states),
        0 <= k <= m < states.len(),
    ensures
        states[k].start() <= states[m].start(),
        states[m].stop() == b0.stop(),
        states[k].stop() == b0.stop(),
    decreases m,
{
    if m > 0 {
        let j = m - 1;
        assert(reqs[j].1 > 0);
        if k < m {
            lemma_run_monotone(b0, reqs, outs, states, k, j);
        } else {
            lemma_run_monotone(b0, reqs, outs, states, j, j);
        }
        if let Some(p) = outs[j] {
            lemma_allocation_in_region(states[j], reqs[j].0, reqs[j].1, states[m], p);
        }
    }
}

/// Any run of requests, refused ones among them, hands out aligned blocks
/// inside the initial free region, in increasing address order and
/// without overlap.
pub proof fn lemma_run_blocks_disjoint(
    b0: BumpPointer,
    reqs: Seq<(usize, usize)>,
    outs: Seq<Option<usize>>,
    states: Seq<BumpPointer>,
    i: int,
    j: int,
)
    requires
        bump_run(b0, reqs, outs, states),
        0 <= i < j < reqs.len(),
        outs[i] is Some,
        outs[j] is Some,
    ensures
        outs[i]->0 + reqs[i].0 <= outs[j]->0,
        outs[i]->0 % reqs[i].1 == 0,
        b0.start() <= outs[i]->0,
        outs[j]->0 + reqs[j].0 <= b0.stop(),
{
    assert(reqs[i].1 > 0);
    assert(reqs[j].1 > 0);
    lemma_allocation_in_region(states[i], reqs[i].0, reqs[i].1, states[i + 1], outs[i]->0);
    lemma_allocation_in_region(states[j], reqs[j].0, reqs[j].1, states[j + 1], outs[j]->0);
    lemma_run_monotone(b0, reqs, outs, states, i + 1, j);
    lemma_run_monotone(b0, reqs, outs, states, 0, i);
    lemma_run_monotone(b0, reqs, outs, states, j + 1, j + 1);
}

/// A run of requests from a well-formed region leaves it well formed.
pub proof fn lemma_run_stays_well_formed(
    b0: BumpPointer,
    reqs: Seq<(usize, usize)>,
    outs: Seq<Option<usize>>,
    states: Seq<BumpPointer>,
    k: int,
)
    requires
        bump_run(b0, reqs, outs, states),
        b0.start() <= b0.stop(),
        0 <= k < states.len(),
    ensures
        states[k].start() <= states[k].stop(),
    decreases k,
{
    if k > 0 {
        let j = k - 1;
        assert(reqs[j].1 > 0);
        lemma_run_stays_well_formed(b0, reqs, outs, states, j);
        if let Some(p) = outs[j] {
            lemma_allocation_in_region(states[j], reqs[j].0, reqs[j].1, states[k], p);
        }
    }
}

/// A refused request leaves the allocator as it was.
pub proof fn lemma_refusal_changes_nothing(before: BumpPointer, size: usize, align: usize, after: BumpPointer)
    requires
        bump_allocates(before, size, align, after, None),
    ensures
        after == before,
{
}

/// Makes `allocator` hand out `[start, stop)`.
pub fn set_allocator(allocator: &mut BumpPointer, start: usize, stop: usize)
    ensures
        final(allocator).start() == start,
        final(allocator).stop() == stop,
{
    *allocator = BumpPointer::new(start, stop);
}

/// The address of a new block, or 0 when none is left.
pub fn allocate(allocator: &mut BumpPointer, size: usize, align: usize) -> (r: usize)
    requires
        align > 0,
    ensures
        round_up(old(allocator).start(), align as int) + size > old(allocator).stop()
            ==> r == 0 && *final(allocator) == *old(allocator),
        round_up(old(allocator).start(), align as int) + size <= old(allocator).stop() ==> {
            &&& r == round_up(old(allocator).start(), align as int)
            &&& final(allocator).start() == r + size
            &&& final(allocator).stop() == old(allocator).stop()
        },
{
    match allocator.allocate(size, align) {
        Some(ptr) => ptr,
        None => 0,
    }
}

/// Gives back a block (which a bump pointer never reuses).
pub fn deallocate(allocator: &mut BumpPointer, ptr: usize, old_size: usize, align: usize)
    ensures
        *final(allocator) == *old(allocator),
{
    allocator.deallocate(ptr, old_size, align)
}

/// The address of a new block for the one at `ptr`, or 0 when none is left;
/// the caller copies the old bytes over.
pub fn reallocate(allocator: &mut BumpPointer, ptr: usize, old_size: usize, size: usize, align: usize) -> (r: usize)
    requires
        align > 0,
    ensures
        round_up(old(allocator).start(), align as int) + size > old(allocator).stop()
            ==> r == 0 && *final(allocator) == *old(allocator),
        round_up(old(allocator).start(), align as int) + size <= old(allocator).stop() ==> {
            &&& r == round_up(old(allocator).start(), align as int)
            &&& final(allocator).start() == r + size
            &&& final(allocator).stop() == old(allocator).stop()
        },
{
    let o = allocator.reallocate(ptr, old_size, size, align);
    proof {
        let mid = choose|mid: BumpPointer|
            #![trigger bump_allocates(*old(allocator), size, align, mid, o)]
            bump_allocates(*old(allocator), size, align, mid, o) && (match o {
                Some(_) => mid == *allocator,
                None => *allocator == mid,
            });
        assert(bump_allocates(*old(allocator), size, align, mid, o));
    }
    match o {
        Some(ptr) => ptr,
        None => 0,
    }
}

/// How far the block at `ptr` can grow in place: its present size.
pub fn reallocate_inplace(allocator: &mut BumpPointer, ptr: usize, old_size: usize, size: usize, align: usize) -> (r: usize)
    ensures
        r == old_size,
        *final(allocator) == *old(allocator),
{
    allocator.reallocate_inplace(ptr, old_size, size, align)
}

/// The usable size of a request of `size` bytes: `size`.
pub fn usable_size(allocator: &mut BumpPointer, size: usize, align: usize) -> (r: usize)
    ensures
        r == size,
        *final(allocator) == *old(allocator),
{
    allocator.usable_size(size, align)
}

/// Prints allocator statistics; a bump pointer keeps none.
pub fn stats_print() {
}

} // verus!
