//! The processor: I/O ports, the programmable interrupt controllers, the
//! hardware interrupt lines and the processor's descriptor tables.
//!
//! Port input and output are machine instructions, so functions here say
//! which port operations to perform, in order, as `PortIo` values; the
//! caller performs them.
use vstd::prelude::*;
use crate::gdt::{GDT, GDTReal};
use crate::idt::{IDT, entry_for};
use crate::keyboard::Keyboard;

verus! {

/// An I/O port.
#[derive(Clone, Copy, Debug, PartialEq, Eq, Structural)]
pub struct Port {
    port_number: u16,
}

impl Port {
    /// The port's number.
    pub closed spec fn number_spec(&self) -> u16 {
        self.port_number
    }

    /// The port numbered `number`.
    pub fn new(number: u16) -> (r: Port)
        ensures
            r.number_spec() == number,
    {
        Port { port_number: number }
    }

    /// The port's number.
    pub fn number(&self) -> (r: u16)
        ensures
            r == self.number_spec(),
    {
        self.port_number
    }
}

/// One port operation: write a byte, a 16-bit word or a 32-bit word to a
/// port, or read a byte or a 32-bit word from one.
#[derive(Clone, Copy, Debug, PartialEq, Eq, Structural)]
pub enum PortIo {
    OutB(u16, u8),
    OutW(u16, u16),
    OutL(u16, u32),
    InB(u16),
    InL(u16),
}

/// The hardware interrupt lines, by the entry each is delivered to.
#[derive(Clone, Copy, Debug, PartialEq, Eq, Structural)]
pub enum IRQ {
    Timer,
    Keyboard,
    Cascade,
    COM2,
    COM1,
    LPT2,
    Floppy,
    LPT1,
    CmosClock,
    FreeOne,
    FreeTwo,
    FreeThree11,
    PsMouse,
    FPU,
    PrimaryAta,
    SecondaryAta,
}

/// The entry an interrupt line is delivered to: 20 for the timer up to 35
/// for the secondary ATA channel.
pub open spec fn irq_vector(irq: IRQ) -> u32 {
    match irq {
        IRQ::Timer => 20,
        IRQ::Keyboard => 21,
        IRQ::Cascade => 22,
        IRQ::COM2 => 23,
        IRQ::COM1 => 24,
        IRQ::LPT2 => 25,
        IRQ::Floppy => 26,
        IRQ::LPT1 => 27,
        IRQ::CmosClock => 28,
        IRQ::FreeOne => 29,
        IRQ::FreeTwo => 30,
        IRQ::FreeThree11 => 31,
        IRQ::PsMouse => 32,
        IRQ::FPU => 33,
        IRQ::PrimaryAta => 34,
        IRQ::SecondaryAta => 35,
    }
}

/// The interrupt lines in the order of the controllers' inputs: the
/// master's eight, then the slave's eight.
pub open spec fn irq_lines() -> Seq<IRQ> {
    seq![
        IRQ::Timer,
        IRQ::Keyboard,
        IRQ::Cascade,
        IRQ::COM2,
        IRQ::COM1,
        IRQ::LPT2,
        IRQ::Floppy,
        IRQ::LPT1,
        IRQ::CmosClock,
        IRQ::FreeOne,
        IRQ::FreeTwo,
        IRQ::FreeThree11,
        IRQ::PsMouse,
        IRQ::FPU,
        IRQ::PrimaryAta,
        IRQ::SecondaryAta,
    ]
}

/// Line `n` of the controllers is delivered to entry `20 + n`: each line's
/// entry, less 20, is its place among the sixteen; distinct lines go to
/// distinct entries, and the entries are 20 to 35.
pub proof fn lemma_irq_vectors()
    ensures
        forall|n: int| 0 <= n < 16 ==> irq_vector(#[trigger] irq_lines()[n]) == 20 + n,
        forall|irq: IRQ| irq_lines()[#[trigger] irq_vector(irq) - 20] == irq,
        forall|a: IRQ, b: IRQ| irq_vector(a) == irq_vector(b) ==> a == b,
        forall|irq: IRQ| 20 <= #[trigger] irq_vector(irq) <= 35,
{
    assert forall|irq: IRQ| irq_lines()[#[trigger] irq_vector(irq) - 20] == irq by {
        match irq {
            IRQ::Timer => {},
            IRQ::Keyboard => {},
            IRQ::Cascade => {},
            IRQ::COM2 => {},
            IRQ::COM1 => {},
            IRQ::LPT2 => {},
            IRQ::Floppy => {},
            IRQ::LPT1 => {},
            IRQ::CmosClock => {},
            IRQ::FreeOne => {},
            IRQ::FreeTwo => {},
            IRQ::FreeThree11 => {},
            IRQ::PsMouse => {},
            IRQ::FPU => {},
            IRQ::PrimaryAta => {},
            IRQ::SecondaryAta => {},
        }
    }
}

/// The entry an interrupt line is delivered to.
pub fn irq_number(irq: IRQ) -> (r: u32)
    ensures
        r == irq_vector(irq),
{
    match irq {
        IRQ::Timer => 20,
        IRQ::Keyboard => 21,
        IRQ::Cascade => 22,
        IRQ::COM2 => 23,
        IRQ::COM1 => 24,
        IRQ::LPT2 => 25,
        IRQ::Floppy => 26,
        IRQ::LPT1 => 27,
        IRQ::CmosClock => 28,
        IRQ::FreeOne => 29,
        IRQ::FreeTwo => 30,
        IRQ::FreeThree11 => 31,
        IRQ::PsMouse => 32,
        IRQ::FPU => 33,
        IRQ::PrimaryAta => 34,
        IRQ::SecondaryAta => 35,
    }
}

/// Points entry `index` of `idt` at the handler at `handler`.
pub fn add_entry(idt: &mut IDT, index: u32, handler: u32)
    requires
        index < crate::idt::IDT_SIZE,
    ensures
        final(idt)@ == old(idt)@.update(index as int, entry_for(handler)),
{
    idt.add_entry(index, handler);
}

/// A programmable interrupt controller: its command and data (mask) ports.
pub struct PIC {
    control_port: Port,
    mask_port: Port,
    is_master: bool,
}

impl PIC {
    /// The command port, the mask port, and whether this is the master.
    pub closed spec fn ports(&self) -> (u16, u16, bool) {
        (self.control_port.number_spec(), self.mask_port.number_spec(), self.is_master)
    }

    /// The master controller, at ports 0x20 and 0x21.
    pub fn master() -> (r: PIC)
        ensures
            r.ports() == (0x20u16, 0x21u16, true),
    {
        PIC { control_port: Port::new(0x20), mask_port: Port::new(0x21), is_master: true }
    }

    /// The slave controller, at ports 0xA0 and 0xA1.
    pub fn slave() -> (r: PIC)
        ensures
            r.ports() == (0xA0u16, 0xA1u16, false),
    {
        PIC { control_port: Port::new(0xA0), mask_port: Port::new(0xA1), is_master: false }
    }

    /// The writes that move this controller's interrupts to entries `start`
    /// onwards and unmask them all: the initialisation command 0x11 to the
    /// command port, then to the mask port the base entry, the cascade word
    /// (2 for the master, 4 for the slave), 8086 mode (1) and mask 0.
    pub fn remap_to(&self, start: u8) -> (r: Vec<PortIo>)
        ensures
            r@ == seq![
                PortIo::OutB(self.ports().0, 0x11),
                PortIo::OutB(self.ports().1, start),
                PortIo::OutB(self.ports().1, if self.ports().2 { 2u8 } else { 4u8 }),
                PortIo::OutB(self.ports().1, 1),
                PortIo::OutB(self.ports().1, 0),
            ],
    {
        let icw1: u8 = 0x11;
        let icw4: u8 = 0x1;
        let enable_all: u8 = 0x00;
        let typ: u8 = if self.is_master { 0x2 } else { 0x4 };
        let control = self.control_port.number();
        let mask = self.mask_port.number();
        let mut r: Vec<PortIo> = Vec::new();
        r.push(PortIo::OutB(control, icw1));
        r.push(PortIo::OutB(mask, start));
        r.push(PortIo::OutB(mask, typ));
        r.push(PortIo::OutB(mask, icw4));
        r.push(PortIo::OutB(mask, enable_all));
        assert(r@ =~= seq![
            PortIo::OutB(self.ports().0, 0x11),
            PortIo::OutB(self.ports().1, start),
            PortIo::OutB(self.ports().1, if self.ports().2 { 2u8 } else { 4u8 }),
            PortIo::OutB(self.ports().1, 1),
            PortIo::OutB(self.ports().1, 0),
        ]);
        r
    }
}

/// The processor: its descriptor tables and its keyboard, if any.
pub struct CPU<C> {
    gdt: GDT,
    idt: IDT,
    keyboard: Option<Keyboard<C>>,
}

impl<C> CPU<C> {
    /// The interrupt table.
    pub closed spec fn idt_view(&self) -> Seq<crate::idt::IDTEntry> {
        self.idt@
    }

    /// The descriptor table: its next entry's index and its register value.
    pub closed spec fn gdt_view(&self) -> (u32, GDTReal) {
        (self.gdt.index(), self.gdt.register_spec())
    }

    /// Whether a keyboard is attached.
    pub closed spec fn has_keyboard(&self) -> bool {
        self.keyboard is Some
    }

    /// A processor with the tables `gdt` and `idt` and no keyboard.
    pub fn new(gdt: GDT, idt: IDT) -> (r: CPU<C>)
        ensures
            r.idt_view() == idt@,
            r.gdt_view() == (gdt.index(), gdt.register_spec()),
            !r.has_keyboard(),
    {
        CPU { gdt, idt, keyboard: None }
    }

    /// The interrupt table.
    pub fn idt(&self) -> (r: &IDT)
        ensures
            r@ == self.idt_view(),
    {
        &self.idt
    }

    /// Handles interrupt `interrupt_number`: nothing is done with it.
    pub fn handle(&mut self, interrupt_number: u32)
        ensures
            *final(self) == *old(self),
    {
    }

    /// Points the entry of interrupt line `irq` at the handler at `handler`.
    pub fn register_irq(&mut self, irq: IRQ, handler: u32)
        ensures
            final(self).idt_view() == old(self).idt_view().update(irq_vector(irq) as int, entry_for(handler)),
            final(self).gdt_view() == old(self).gdt_view(),
            final(self).has_keyboard() == old(self).has_keyboard(),
    {
        let n = irq_number(irq);
        self.idt.add_entry(n, handler);
    }
}

} // verus!
