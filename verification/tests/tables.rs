use rustos::cpu::{self, irq_number, PortIo, CPU, IRQ, PIC};
use rustos::gdt::{encode_gdt_entry, GDTReal, GDT};
use rustos::idt::{IDTEntry, IDT};
use rustos::idt_pointer;

#[test]
fn gdt_flat_code_segment_encoding() {
    assert_eq!(encode_gdt_entry(0xFFFFFFFF, 0, 0x9A), [0xFF, 0xFF, 0, 0, 0, 0x9A, 0xCF, 0]);
}

#[test]
fn gdt_byte_granular_segment_encoding() {
    assert_eq!(
        encode_gdt_entry(0x1234, 0xAABBCCDD, 0x92),
        [0x34, 0x12, 0xDD, 0xCC, 0xBB, 0x92, 0x40, 0xAA]
    );
    // exactly 64 KiB stays byte granular
    assert_eq!(encode_gdt_entry(65536, 0, 0), [0, 0, 0, 0, 0, 0, 0x41, 0]);
    // just above goes to 4 KiB units
    assert_eq!(encode_gdt_entry(65537, 0, 0), [0x10, 0, 0, 0, 0, 0, 0xC0, 0]);
}

#[test]
fn gdt_new_and_add_entry() {
    let mut g = GDT::new(0x800, 3);
    assert_eq!(g.register_value(), GDTReal { limit: 24, base: 0x800 });
    let (a0, b0) = g.add_entry(0, 0, 0);
    assert_eq!(a0, 0x800);
    assert_eq!(b0, [0, 0, 0, 0, 0, 0, 0x40, 0]);
    let (a1, b1) = g.add_entry(0, 0xFFFFFFFF, 0x9A);
    assert_eq!(a1, 0x808);
    assert_eq!(b1, [0xFF, 0xFF, 0, 0, 0, 0x9A, 0xCF, 0]);
    let (a2, _) = g.add_entry(0x100, 0x1000, 0x92);
    assert_eq!(a2, 0x810);
}

#[test]
fn idt_entry_splits_the_handler_address() {
    let e = IDTEntry::new(0x12345678);
    assert_eq!(e.offset_lower, 0x5678);
    assert_eq!(e.offset_upper, 0x1234);
    assert_eq!(e.selector, 0x08);
    assert_eq!(e.zero, 0);
    assert_eq!(e.type_attr, 0x8E);
    assert_eq!(IDTEntry::no_op(0x10), IDTEntry::new(0x10));
}

#[test]
fn idt_table_new_add_len_layout() {
    let mut t = IDT::new(0xdead);
    assert_eq!(t.len(), 256);
    assert_eq!(t.entry(255), IDTEntry::new(0xdead));
    t.add_entry(33, 0xbeef0001);
    assert_eq!(t.entry(33), IDTEntry::new(0xbeef0001));
    assert_eq!(t.entry(32), IDTEntry::new(0xdead));
    let layout = t.layout(0x4000);
    assert_eq!(layout.limit, 2048);
    assert_eq!(layout.base, 0x4000);
}

#[test]
fn idt_register_value_table() {
    let t = idt_pointer::IDT::new(0x1000, 256);
    assert_eq!(t.descriptor(), (2048, 0x1006));
    let (addr, e) = t.add_entry(3, 0xaabbccdd);
    assert_eq!(addr, 0x1006 + 24);
    assert_eq!(e, IDTEntry::new(0xaabbccdd));
}

#[test]
fn pic_remap_writes() {
    let m = PIC::master().remap_to(0x20);
    assert_eq!(
        m,
        vec![
            PortIo::OutB(0x20, 0x11),
            PortIo::OutB(0x21, 0x20),
            PortIo::OutB(0x21, 0x2),
            PortIo::OutB(0x21, 0x1),
            PortIo::OutB(0x21, 0x0)
        ]
    );
    let s = PIC::slave().remap_to(0x28);
    assert_eq!(s[0], PortIo::OutB(0xA0, 0x11));
    assert_eq!(s[1], PortIo::OutB(0xA1, 0x28));
    assert_eq!(s[2], PortIo::OutB(0xA1, 0x4));
}

#[test]
fn irq_numbers() {
    assert_eq!(irq_number(IRQ::Timer), 20);
    assert_eq!(irq_number(IRQ::Keyboard), 21);
    assert_eq!(irq_number(IRQ::FPU), 33);
    assert_eq!(irq_number(IRQ::SecondaryAta), 35);
}

#[test]
fn cpu_register_irq_and_handle() {
    let mut c: CPU<fn(u8)> = CPU::new(GDT::new(0, 3), IDT::new(1));
    c.handle(21);
    c.register_irq(IRQ::Keyboard, 0x5000);
    assert_eq!(c.idt().entry(21), IDTEntry::new(0x5000));
    assert_eq!(c.idt().entry(20), IDTEntry::new(1));
    let mut t = IDT::new(0);
    cpu::add_entry(&mut t, 7, 9);
    assert_eq!(t.entry(7), IDTEntry::new(9));
}

#[test]
fn port_numbers() {
    assert_eq!(cpu::Port::new(0x3f8).number(), 0x3f8);
}

#[test]
fn gdt_descriptor_reads_back() {
    for &(limit, base) in &[(0u32, 0u32), (0xFFFF, 0x12345678), (65536, 0xdeadbeef), (0x12345678, 0x00100000)] {
        let b = encode_gdt_entry(limit, base, 0x92);
        let read_base = b[2] as u32 | (b[3] as u32) << 8 | (b[4] as u32) << 16 | (b[7] as u32) << 24;
        assert_eq!(read_base, base);
        let field = b[0] as u32 | (b[1] as u32) << 8 | ((b[6] & 0xf) as u32) << 16;
        let pages = b[6] >= 0x80;
        assert_eq!(pages, limit > 65536);
        if pages {
            assert!(field * 4096 <= limit && limit < (field + 1) * 4096);
        } else {
            assert_eq!(field, limit);
        }
    }
}

#[test]
fn idt_entries_and_tables_as_bytes() {
    let e = IDTEntry::new(0x12345678);
    assert_eq!(e.to_bytes(), [0x78, 0x56, 0x08, 0x00, 0x00, 0x8E, 0x34, 0x12]);
    assert_eq!(IDTEntry::from_bytes(&e.to_bytes()), e);
    let mut t = IDT::new(0xdead);
    t.add_entry(33, 0xbeef0001);
    let bytes = t.to_bytes();
    assert_eq!(bytes.len(), 2048);
    assert_eq!(&bytes[8 * 33..8 * 34], &[0x01, 0x00, 0x08, 0x00, 0x00, 0x8E, 0xef, 0xbe]);
    assert_eq!(&bytes[0..8], &IDTEntry::new(0xdead).to_bytes());
    let mut changed = bytes.clone();
    changed[8 * 7] = 0x42;
    let back = IDT::from_bytes(&changed);
    assert_eq!(back.entry(7), IDTEntry::new(0xde42));
    assert_eq!(back.entry(33), IDTEntry::new(0xbeef0001));
    assert_eq!(IDT::from_bytes(&bytes).to_bytes(), bytes);
}
