use rustos::allocator::{Allocator, GoodEnoughForNow};
use rustos::console;
use rustos::context::{format_hex, Context, Registers};
use rustos::context_scheduler;
use rustos::scheduler::{Scheduler, STACK_SIZE};
use rustos::stack::Stack;
use rustos::tcb_scheduler::{self, Tcb};
use rustos::terminal::Terminal;
use rustos::thread::{wait, Thread};
use rustos::vga::VGA;

fn regs(n: u32) -> Registers {
    Registers { eax: n, ebx: n, ecx: n, edx: n, ebp: n, esi: n, edi: n }
}

fn row(t: &mut Terminal, y: usize, n: usize) -> Vec<u8> {
    (0..n).map(|x| t.get((x, y)).unwrap().0).collect()
}

#[test]
fn thread_new_and_current_state() {
    let t = Thread::new(0x4000, 0x9000);
    assert_eq!(t.instruction_pointer(), 0x4000);
    assert!(Thread::current_state_or_resumed(1, 2, 0).is_none());
    let c = Thread::current_state_or_resumed(1, 2, 3).unwrap();
    assert_eq!(c.instruction_pointer(), 3);
    assert_eq!(c, Thread::current_state_or_resumed(1, 2, 3).unwrap());
}

#[test]
fn wait_computes_its_delay_sum() {
    let mut i: u64 = 0;
    let mut sum: u64 = 0;
    while i < 0x8ffffff {
        i += 1;
        sum = sum.wrapping_add((i * 2 * i).wrapping_sub(4));
        if (i * 213423) as u32 & 0xff == 1 {
            i += 2;
        }
    }
    assert_eq!(wait(), sum);
}

#[test]
fn thread_debug_prints_the_instruction_pointer() {
    let mut term = Terminal::init();
    Thread::new(0xc0de, 0).debug(&mut term);
    assert_eq!(row(&mut term, 0, 17), b"eip is 0x0000C0DE".to_vec());
    assert_eq!(term.cursor(), (1, 1));
}

#[test]
fn panic_message_shows_both_lines() {
    let mut term = Terminal::init();
    rustos::panic::print(&mut term, "x");
    rustos::panic::init(&mut term);
    assert_eq!(term.cursor(), (1, 0));
    let mut t2 = Terminal::init();
    rustos::panic::panic_message(&mut t2, "oops");
    assert_eq!(row(&mut t2, 0, 4), b"oops".to_vec());
    assert_eq!(row(&mut t2, 1, 11), b"\0^ panic ->".to_vec());
    rustos::panic::println(&mut t2, "z");
    assert_eq!(t2.get((1, 2)).unwrap().0, b'z');
}

#[test]
fn scheduler_round_robin() {
    let mut term = Terminal::init();
    let mut heap = GoodEnoughForNow::new(0x10000, 0x100000);
    let mut s = Scheduler::new();
    s.schedule(&mut heap, &mut term, 0x111);
    s.schedule(&mut heap, &mut term, 0x222);
    assert_eq!(s.len(), 2);
    assert_eq!(heap.debug(), (0x10000 + 2 * STACK_SIZE, 0x100000));
    assert_eq!(term.cursor(), (0, 0));
    let main = Thread::new(0x999, 0x5000);
    let first = s.switch(Some(main)).unwrap();
    assert_eq!(first, Thread::new(0x111, 0x10000));
    let second = s.switch(Some(first)).unwrap();
    assert_eq!(second, Thread::new(0x222, 0x10000 + STACK_SIZE as u32));
    let third = s.switch(Some(second)).unwrap();
    assert_eq!(third, main);
    assert!(s.switch(None).is_none());
    assert_eq!(s.len(), 2);
    assert_eq!(s.unschedule_current(), Thread::new(0x111, 0x10000));
    assert_eq!(s.len(), 1);
}

#[test]
fn scheduler_with_a_full_heap_gets_a_null_stack() {
    let mut term = Terminal::init();
    let mut heap = GoodEnoughForNow::new(0x10000, 16);
    let mut s = Scheduler::new();
    s.schedule(&mut heap, &mut term, 0x111);
    assert_eq!(heap.debug(), (0x10000, 16));
    assert_eq!(row(&mut term, 0, 14), b"no mem left :(".to_vec());
    assert_eq!(s.unschedule_current(), Thread::new(0x111, 0));
    assert_eq!(s.len(), 0);
    let alone = Thread::new(1, 2);
    assert_eq!(Scheduler::new().switch(Some(alone)), Some(alone));
}

#[test]
fn context_empty_and_new() {
    let e = Context::empty();
    assert_eq!(e.registers(), Context::empty_regs());
    assert_eq!(Context::empty_regs().ebp, 0xffffffff);
    assert_eq!(e.esp(), 0);
    assert_eq!(e.instruction_pointer(), 0);
    let c = Context::new(0x123, vec![0u8; 16], 0x1_0000_2000usize, regs(5));
    assert_eq!(c.registers(), regs(5));
    assert_eq!(c.esp(), 0x2000);
    assert_eq!(c.instruction_pointer(), 0x123);
}

#[test]
fn context_hex_digits_are_lower_case_without_leading_zeros() {
    assert_eq!(format_hex(0), b"0".to_vec());
    assert_eq!(format_hex(0x10), b"10".to_vec());
    assert_eq!(format_hex(0xdeadbeef), b"deadbeef".to_vec());
    assert_eq!(format_hex(0x00c0ffee), b"c0ffee".to_vec());
}

#[test]
fn context_debug_prints_address_and_pointers() {
    let mut t = console::Terminal::init_global(VGA::new());
    let c = Context::new(0xbeef, vec![], 0x1234, regs(0));
    c.debug(&mut t, 0x10);
    let line = |t: &mut console::Terminal, y: usize, n: usize| -> Vec<u8> {
        (0..n).map(|x| t.get((x, y)).unwrap().0).collect()
    };
    assert_eq!(line(&mut t, 0, 43), b"[DEBUG:src/context.rs 175]:    self is 0x10".to_vec());
    assert_eq!(line(&mut t, 1, 44), b"[DEBUG:src/context.rs 179]:    eip is 0xbeef".to_vec());
    assert_eq!(line(&mut t, 2, 44), b"[DEBUG:src/context.rs 183]:    esp is 0x1234".to_vec());
    assert_eq!(t.get((44, 2)).unwrap().0, 0);
    assert_eq!(t.cursor(), (0, 3));
}

#[test]
fn context_scheduler_round_robin() {
    let mut s = context_scheduler::Scheduler::new();
    s.schedule(0x10, vec![7u8, 8], 0x100000, regs(1));
    assert_eq!(s.len(), 1);
    assert!(s.switch(Context::empty(), true).is_none());
    let next = s.switch(Context::new(0x20, vec![], 0x9000, regs(2)), false).unwrap();
    assert_eq!(next.instruction_pointer(), 0x10);
    assert_eq!(next.esp(), (0x100000 + context_scheduler::STACK_SIZE) as u32);
    assert_eq!(next.registers(), regs(1));
    let back = s.unschedule_current();
    assert_eq!(back.instruction_pointer(), 0x20);
    assert_eq!(back.esp(), 0x9000);
    assert_eq!(s.len(), 0);
}

#[test]
fn tcb_scheduler_keeps_current_at_back() {
    let current = Tcb::new(Context::new(0xaa, vec![], 0, regs(0)), Stack::new(64));
    let mut s = tcb_scheduler::Scheduler::new(current);
    s.schedule(Tcb::new(Context::new(0xbb, vec![], 0x100, regs(1)), Stack::new(64)));
    s.schedule(Tcb::new(Context::new(0xcc, vec![], 0x200, regs(2)), Stack::new(64)));
    assert_eq!(s.len(), 3);
    // queue: bb, cc, aa (running)
    let next = s.switch(Context::new(0xa1, vec![], 0x300, regs(9)));
    assert_eq!(next, (regs(1), 0x100, 0xbb));
    // queue: cc, a1, bb (running): no block is lost
    assert_eq!(s.len(), 3);
    let after = s.unschedule_current();
    assert_eq!(after, (regs(2), 0x200, 0xcc));
    // queue: a1, cc (running)
    assert_eq!(s.len(), 2);
    let last = s.switch(Context::new(0xc1, vec![], 0x400, regs(4)));
    assert_eq!(last, (regs(9), 0x300, 0xa1));
    assert_eq!(s.len(), 2);
    let again = s.switch(Context::new(0xa2, vec![], 0x500, regs(5)));
    assert_eq!(again, (regs(4), 0x400, 0xc1));
}

#[test]
fn tcb_new_block_starts_at_the_end_of_its_stack() {
    let tcb = tcb_scheduler::Scheduler::new_tcb(0x77, Stack::new(4096), 0x20000, regs(3));
    assert_eq!(tcb.context().instruction_pointer(), 0x77);
    assert_eq!(tcb.context().esp(), 0x21000);
    assert_eq!(tcb.context().registers(), regs(3));
    assert_eq!(tcb.stack().size(), 4096);
    assert_eq!(tcb_scheduler::STACK_SIZE, 1024 * 1024);
}

#[test]
fn stack_keeps_its_room() {
    assert_eq!(Stack::new(4096).size(), 4096);
    assert_eq!(Stack::new(0).size(), 0);
    assert!(Stack::new(16).as_slice().is_empty());
}

#[test]
fn tcb_unscheduling_the_only_thread_resumes_it() {
    let only = Tcb::new(Context::new(0xdd, vec![], 0x600, regs(6)), Stack::new(32));
    let mut s = tcb_scheduler::Scheduler::new(only);
    assert_eq!(s.unschedule_current(), (regs(6), 0x600, 0xdd));
    assert_eq!(s.len(), 1);
}
