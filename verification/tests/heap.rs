use rustos::allocator::{self, Allocator as HeapAllocator, GoodEnoughForNow};
use rustos::bump_pointer::{self, Allocator, BumpPointer};
use rustos::terminal::Terminal;

#[test]
fn bump_allocate_aligns_and_advances() {
    let mut b = BumpPointer::new(100, 200);
    assert_eq!(b.allocate(10, 8), Some(104));
    assert_eq!(b.debug(), (114, 86));
    assert_eq!(b.allocate(6, 4), Some(116));
    assert_eq!(b.debug(), (122, 78));
}

#[test]
fn bump_allocate_refuses_what_does_not_fit() {
    let mut b = BumpPointer::new(100, 200);
    assert_eq!(b.allocate(100, 1), Some(100));
    assert_eq!(b.allocate(1, 1), None);
    assert_eq!(b.debug(), (200, 0));
    let mut c = BumpPointer::new(100, 200);
    // 128 + 80 > 200
    assert_eq!(c.allocate(80, 64), None);
    assert_eq!(c.debug(), (100, 100));
}

#[test]
fn bump_allocate_exact_fit_and_huge_requests() {
    let mut b = BumpPointer::new(0, 16);
    assert_eq!(b.allocate(16, 16), Some(0));
    let mut c = BumpPointer::new(usize::MAX - 3, usize::MAX);
    assert_eq!(c.allocate(usize::MAX, 8), None);
    assert_eq!(c.allocate(2, 2), Some(usize::MAX - 3));
}

#[test]
fn bump_debug_of_a_reversed_region_wraps() {
    let mut b = BumpPointer::new(10, 4);
    assert_eq!(b.debug(), (10, usize::MAX - 5));
    assert_eq!(b.allocate(0, 1), None);
}

#[test]
fn bump_defaults() {
    let mut b = BumpPointer::new(0, 64);
    assert_eq!(b.reallocate_inplace(8, 24, 100, 8), 24);
    assert_eq!(b.usable_size(33, 16), 33);
    b.deallocate(8, 24, 8);
    assert_eq!(b.debug(), (0, 64));
    assert_eq!(b.reallocate(8, 24, 10, 8), Some(0));
    assert_eq!(b.debug(), (10, 54));
}

#[test]
fn bump_free_functions() {
    let mut b = BumpPointer::new(0, 0);
    bump_pointer::set_allocator(&mut b, 0x1000, 0x2000);
    assert_eq!(bump_pointer::allocate(&mut b, 0x10, 0x100), 0x1000);
    assert_eq!(bump_pointer::allocate(&mut b, 0x10, 0x100), 0x1100);
    assert_eq!(bump_pointer::allocate(&mut b, 0x10000, 1), 0);
    assert_eq!(bump_pointer::reallocate(&mut b, 0x1000, 0x10, 0x20, 0x10), 0x1110);
    assert_eq!(bump_pointer::reallocate(&mut b, 0x1000, 0x10, 0x10000, 0x10), 0);
    bump_pointer::deallocate(&mut b, 0x1000, 0x10, 0x100);
    assert_eq!(bump_pointer::reallocate_inplace(&mut b, 0x1000, 7, 9, 1), 7);
    assert_eq!(bump_pointer::usable_size(&mut b, 7, 1), 7);
    assert_eq!(b.debug(), (0x1130, 0x2000 - 0x1130));
    bump_pointer::stats_print();
}

#[test]
fn bump_successive_blocks_do_not_overlap() {
    let mut b = BumpPointer::new(3, 1000);
    let mut prev_end = 3;
    for (size, align) in [(5usize, 4usize), (1, 1), (17, 16), (0, 8), (30, 32)] {
        let p = b.allocate(size, align).unwrap();
        assert_eq!(p % align, 0);
        assert!(p >= prev_end);
        prev_end = p + size;
    }
}

fn row_text(t: &mut Terminal, y: usize, n: usize) -> Vec<u8> {
    (0..n).map(|x| t.get((x, y)).unwrap().0).collect()
}

#[test]
fn heap_hands_out_consecutive_blocks() {
    let mut t = Terminal::init();
    let mut h = GoodEnoughForNow::new(0, 0);
    allocator::set_allocator(&mut h, 0x1000, 0x2000);
    assert_eq!(h.debug(), (0x1000, 0x1000));
    assert_eq!(allocator::malloc(&mut h, 0x100, &mut t), 0x1000);
    assert_eq!(allocator::malloc(&mut h, 0x100, &mut t), 0x1100);
    assert_eq!(h.debug(), (0x1200, 0x1000));
    // nothing was printed
    assert_eq!(t.cursor(), (0, 0));
}

#[test]
fn heap_refuses_requests_as_large_as_the_heap_only() {
    let mut t = Terminal::init();
    let mut h = GoodEnoughForNow::new(0x1000, 0x100);
    assert_eq!(allocator::malloc(&mut h, 0x100, &mut t), 0);
    assert_eq!(row_text(&mut t, 0, 14), b"no mem left :(".to_vec());
    assert_eq!(t.cursor(), (14, 0));
    assert_eq!(allocator::malloc(&mut h, 0xff, &mut t), 0x1000);
    // the heap's size never shrinks: the next request still succeeds
    assert_eq!(allocator::malloc(&mut h, 0xff, &mut t), 0x10ff);
    assert_eq!(t.cursor(), (14, 0));
    let mut other = Terminal::init();
    assert_eq!(h.allocate(0x1000, &mut other), None);
    assert_eq!(row_text(&mut other, 0, 14), b"no mem left :(".to_vec());
    assert_eq!(h.allocate(1, &mut other), Some(0x11fe));
    assert_eq!(other.cursor(), (14, 0));
}

#[test]
fn heap_addresses_wrap_at_the_top() {
    let mut t = Terminal::init();
    let mut h = GoodEnoughForNow::new(usize::MAX, 10);
    assert_eq!(allocator::malloc(&mut h, 2, &mut t), usize::MAX);
    assert_eq!(h.debug(), (1, 10));
}

#[test]
fn heap_free_and_realloc() {
    let mut t = Terminal::init();
    let mut h = GoodEnoughForNow::new(0x400, 0x100);
    allocator::free(&mut h, 0x400);
    assert_eq!(h.debug(), (0x400, 0x100));
    h.free(0x410);
    assert_eq!(h.debug(), (0x400, 0x100));
    assert_eq!(allocator::realloc(&mut h, 0x400, 0x20, &mut t), 0x400);
    assert_eq!(t.cursor(), (0, 0));
    assert_eq!(allocator::realloc(&mut h, 0x400, 0x100, &mut t), 0);
    assert_eq!(row_text(&mut t, 0, 14), b"no mem left :(".to_vec());
    assert_eq!(h.debug(), (0x420, 0x100));
}

#[test]
fn bump_runs_hand_out_disjoint_blocks_with_refusals_between() {
    let mut b = BumpPointer::new(10, 100);
    let mut blocks: Vec<(usize, usize)> = Vec::new();
    for (size, align) in [(7usize, 4usize), (200, 1), (9, 8), (0, 1), (95, 1), (20, 16), (1, 64)] {
        let before = b.debug();
        match b.allocate(size, align) {
            Some(p) => {
                assert_eq!(p % align, 0);
                assert!(p >= 10 && p + size <= 100);
                blocks.push((p, size));
            }
            None => assert_eq!(b.debug(), before),
        }
    }
    assert_eq!(blocks, vec![(12, 7), (24, 9), (33, 0), (48, 20)]);
    for w in blocks.windows(2) {
        assert!(w[0].0 + w[0].1 <= w[1].0);
    }
}

#[test]
fn heap_size_wraps_when_stop_is_below_start() {
    let mut h = GoodEnoughForNow::new(0, 0);
    allocator::set_allocator(&mut h, 10, 4);
    assert_eq!(h.debug(), (10, usize::MAX - 5));
}
