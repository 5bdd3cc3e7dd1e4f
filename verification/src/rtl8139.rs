//! The RTL8139 network card: its registers in the card's I/O window, the
//! start-up sequence (reset, then enable the transmitter), sending a frame
//! through the four transmit descriptors in turn, and reading the card's
//! hardware address.
//!
//! The card is driven through I/O ports; functions here say which port
//! operations to perform and take the bytes read back as arguments.
use vstd::prelude::*;
use crate::cpu::{Port, PortIo};
use crate::console::{Terminal, console_put_chars};
use crate::log::{debug, decimal, format_decimal, log_line, push_all};
use vstd::string::StringSliceAdditionalSpecFns;

verus! {

/// Where the start-up sequence stands.
#[derive(Clone, Copy, Debug, PartialEq, Eq, Structural)]
pub enum InitStep {
    /// Nothing done yet.
    Start,
    /// Reset requested; waiting for the reset bit (0x10) of the command
    /// register to clear.
    WaitReset,
    /// Transmitter enabled; waiting for bits 0x0C of the command register.
    WaitTransmit,
    /// The card is ready.
    Done,
}

/// The next step of the start-up sequence, from `step` and the byte
/// `last_read` from the command register by the previous step's last
/// operation: the step reached and the port operations to perform for it.
/// From the start: clear configuration register 1, write the reset bit to
/// the command register and read it back. While the reset bit reads set,
/// read again; then write 0x0C (enable receiver and transmitter) and read
/// back. While bits 0x0C do not both read set, read again; then done.
pub open spec fn init_plan(config: u16, command: u16, step: InitStep, last_read: u8) -> (InitStep, Seq<PortIo>) {
    match step {
        InitStep::Start => (
            InitStep::WaitReset,
            seq![PortIo::OutB(config, 0x00), PortIo::OutB(command, 0x10), PortIo::InB(command)],
        ),
        InitStep::WaitReset => if last_read & 0x10 != 0 {
            (InitStep::WaitReset, seq![PortIo::InB(command)])
        } else {
            (InitStep::WaitTransmit, seq![PortIo::OutB(command, 0x0C), PortIo::InB(command)])
        },
        InitStep::WaitTransmit => if last_read & 0x0c != 0x0c {
            (InitStep::WaitTransmit, seq![PortIo::InB(command)])
        } else {
            (InitStep::Done, Seq::empty())
        },
        InitStep::Done => (InitStep::Done, Seq::empty()),
    }
}

/// One step of the start-up sequence of a card with configuration register
/// 1 at port `config` and command register at port `command`.
pub fn init_step(config: u16, command: u16, step: InitStep, last_read: u8) -> (r: (InitStep, Vec<PortIo>))
    ensures
        (r.0, r.1@) == init_plan(config, command, step, last_read),
{
    let mut ops: Vec<PortIo> = Vec::new();
    let next = match step {
        InitStep::Start => {
            ops.push(PortIo::OutB(config, 0x00));
            ops.push(PortIo::OutB(command, 0x10));
            ops.push(PortIo::InB(command));
            InitStep::WaitReset
        },
        InitStep::WaitReset => {
            if last_read & 0x10 != 0 {
                ops.push(PortIo::InB(command));
                InitStep::WaitReset
            } else {
                ops.push(PortIo::OutB(command, 0x0C));
                ops.push(PortIo::InB(command));
                InitStep::WaitTransmit
            }
        },
        InitStep::WaitTransmit => {
            if last_read & 0x0c != 0x0c {
                ops.push(PortIo::InB(command));
                InitStep::WaitTransmit
            } else {
                InitStep::Done
            }
        },
        InitStep::Done => InitStep::Done,
    };
    proof {
        let plan = init_plan(config, command, step, last_read);
        assert(ops@ =~= plan.1);
    }
    (next, ops)
}

/// The start-up sequence, step by step, for every byte read back: it starts
/// by clearing configuration register 1, writing the reset bit (0x10) and
/// reading the command register; it keeps reading while the byte read has
/// the reset bit set, and only once that bit reads clear writes 0x0C
/// (enable receiver and transmitter) and reads back; it keeps reading until
/// both bits 0x0C read set, and is then done, with nothing more to do.
pub proof fn lemma_init_sequence(config: u16, command: u16, b: u8)
    ensures
        init_plan(config, command, InitStep::Start, b) == (
            InitStep::WaitReset,
            seq![PortIo::OutB(config, 0), PortIo::OutB(command, 0x10), PortIo::InB(command)],
        ),
        (b & 0x10 == 0x10) ==> init_plan(config, command, InitStep::WaitReset, b) == (
            InitStep::WaitReset,
            seq![PortIo::InB(command)],
        ),
        (b & 0x10 == 0) ==> init_plan(config, command, InitStep::WaitReset, b) == (
            InitStep::WaitTransmit,
            seq![PortIo::OutB(command, 0x0C), PortIo::InB(command)],
        ),
        (b & 0x04 == 0x04 && b & 0x08 == 0x08) ==> init_plan(config, command, InitStep::WaitTransmit, b) == (
            InitStep::Done,
            Seq::<PortIo>::empty(),
        ),
        (b & 0x04 == 0 || b & 0x08 == 0) ==> init_plan(config, command, InitStep::WaitTransmit, b) == (
            InitStep::WaitTransmit,
            seq![PortIo::InB(command)],
        ),
        init_plan(config, command, InitStep::Done, b) == (InitStep::Done, Seq::<PortIo>::empty()),
{
    assert((b & 0x10 == 0x10) <==> (b & 0x10 != 0)) by (bit_vector);
    assert((b & 0x04 == 0x04 && b & 0x08 == 0x08) <==> (b & 0x0c == 0x0c)) by (bit_vector);
}

/// The port `off` bytes into the I/O window at `io_offset`; port numbers
/// wrap round at 0x10000.
pub open spec fn port_at(io_offset: u16, off: int) -> u16 {
    ((io_offset + off) % 0x10000) as u16
}

/// `c` is the card whose I/O window starts at `io_offset`, ready to use
/// descriptor 0: command register at +0x37, configuration register 1 at
/// +0x52, transmit addresses at +0x20, +0x24, +0x28, +0x2c, transmit
/// statuses at +0x10, +0x14, +0x18, +0x1c, hardware address at +0 to +5.
pub open spec fn card_at(c: Rtl8139, io_offset: u16) -> bool {
    &&& c.wf()
    &&& c.descriptor_spec() == 0
    &&& c.registers().0 == port_at(io_offset, 0x37)
    &&& c.registers().1 == port_at(io_offset, 0x52)
    &&& c.registers().2 == seq![
        port_at(io_offset, 0x20),
        port_at(io_offset, 0x24),
        port_at(io_offset, 0x28),
        port_at(io_offset, 0x2c),
    ]
    &&& c.registers().3 == seq![
        port_at(io_offset, 0x10),
        port_at(io_offset, 0x14),
        port_at(io_offset, 0x18),
        port_at(io_offset, 0x1c),
    ]
    &&& c.registers().4 == Seq::new(6, |i: int| port_at(io_offset, i))
}

/// The port `off` bytes into the I/O window at `io_offset` (see `port_at`).
pub(crate) fn window_port(io_offset: u16, off: u16) -> (r: Port)
    ensures
        r.number_spec() == port_at(io_offset, off as int),
{
    let n: u16 = io_offset.wrapping_add(off);
    Port::new(n)
}

/// The debug line that `put_frame` logs for a frame of `len` bytes.
pub open spec fn sending_line(len: usize) -> Seq<u8> {
    log_line(
        "DEBUG".spec_bytes(),
        "src/rtl8139.rs".spec_bytes(),
        269,
        "sending ".spec_bytes() + decimal(len as nat) + " bytes".spec_bytes(),
    )
}

/// Whether a transmit status word says the frame has gone (bit 0x8000).
pub fn transmit_done(status: u32) -> (r: bool)
    ensures
        r == (status & 0x8000 != 0),
{
    status & 0x8000 != 0
}

/// The card: its registers, and the transmit descriptor to use next.
pub struct Rtl8139 {
    command_register: Port,
    transmit_address: [Port; 4],
    transmit_status: [Port; 4],
    id: [Port; 6],
    config_1: Port,
    descriptor: usize,
}

impl Rtl8139 {
    /// The next transmit descriptor is one of the four.
    pub closed spec fn wf(&self) -> bool {
        self.descriptor < 4
    }

    /// The transmit descriptor to use next.
    pub closed spec fn descriptor_spec(&self) -> usize {
        self.descriptor
    }

    /// The command register, configuration register 1, the four transmit
    /// address registers, the four transmit status registers and the six
    /// hardware-address registers.
    pub closed spec fn registers(&self) -> (u16, u16, Seq<u16>, Seq<u16>, Seq<u16>) {
        (
            self.command_register.number_spec(),
            self.config_1.number_spec(),
            Seq::new(4, |i: int| self.transmit_address@[i].number_spec()),
            Seq::new(4, |i: int| self.transmit_status@[i].number_spec()),
            Seq::new(6, |i: int| self.id@[i].number_spec()),
        )
    }

    /// The card whose I/O window starts at `io_offset` (see `card_at`).
    pub fn new(io_offset: u16) -> (r: Rtl8139)
        ensures
            card_at(r, io_offset),
    {
        let r = Rtl8139 {
            config_1: window_port(io_offset, 0x52),
            command_register: window_port(io_offset, 0x37),
            transmit_address: [
                window_port(io_offset, 0x20),
                window_port(io_offset, 0x24),
                window_port(io_offset, 0x28),
                window_port(io_offset, 0x2c),
            ],
            transmit_status: [
                window_port(io_offset, 0x10),
                window_port(io_offset, 0x14),
                window_port(io_offset, 0x18),
                window_port(io_offset, 0x1c),
            ],
            id: [
                window_port(io_offset, 0),
                window_port(io_offset, 1),
                window_port(io_offset, 2),
                window_port(io_offset, 3),
                window_port(io_offset, 4),
                window_port(io_offset, 5),
            ],
            descriptor: 0,
        };
        assert(r.registers().2 =~= seq![
            port_at(io_offset, 0x20),
            port_at(io_offset, 0x24),
            port_at(io_offset, 0x28),
            port_at(io_offset, 0x2c),
        ]);
        assert(r.registers().3 =~= seq![
            port_at(io_offset, 0x10),
            port_at(io_offset, 0x14),
            port_at(io_offset, 0x18),
            port_at(io_offset, 0x1c),
        ]);
        assert(r.registers().4 =~= Seq::new(6, |i: int| port_at(io_offset, i)));
        r
    }

    /// One step of the card's start-up sequence (see `init_plan`).
    pub fn init(&self, step: InitStep, last_read: u8) -> (r: (InitStep, Vec<PortIo>))
        ensures
            (r.0, r.1@) == init_plan(self.registers().1, self.registers().0, step, last_read),
    {
        init_step(self.config_1.number(), self.command_register.number(), step, last_read)
    }

    /// Logs `sending <len> bytes` (see `sending_line`) and sends the
    /// `len`-byte frame at address `data` through the current
    /// descriptor: write the address to its transmit address register, the
    /// length (low 12 bits) to its status register, then read the status
    /// register until `transmit_done`. The next frame uses the next
    /// descriptor, round the four.
    pub fn put_frame(&mut self, data: u32, len: usize, term: &mut Terminal) -> (r: Vec<PortIo>)
        requires
            old(self).wf(),
            old(term).wf(),
        ensures
            final(self).wf(),
            final(term).wf(),
            final(term)@ == console_put_chars(old(term)@, sending_line(len)),
            final(self).registers() == old(self).registers(),
            final(self).descriptor_spec() == (old(self).descriptor_spec() + 1) % 4,
            r@ == seq![
                PortIo::OutL(old(self).registers().2[old(self).descriptor_spec() as int], data),
                PortIo::OutL(old(self).registers().3[old(self).descriptor_spec() as int], (len % 4096) as u32),
                PortIo::InL(old(self).registers().3[old(self).descriptor_spec() as int]),
            ],
    {
        let mut m: Vec<u8> = Vec::new();
        push_all(&mut m, "sending ".as_bytes());
        push_all(&mut m, format_decimal(len).as_slice());
        push_all(&mut m, " bytes".as_bytes());
        debug(term, "src/rtl8139.rs", 269, m.as_slice());
        let d = self.descriptor;
        let address_port = self.transmit_address[d].number();
        let status_port = self.transmit_status[d].number();
        let l: u32 = (len & 0xfff) as u32;
        assert(len & 0xfffusize == len % 4096) by (bit_vector);
        let mut ops: Vec<PortIo> = Vec::new();
        ops.push(PortIo::OutL(address_port, data));
        ops.push(PortIo::OutL(status_port, l));
        ops.push(PortIo::InL(status_port));
        self.descriptor = (self.descriptor + 1) % 4;
        assert(ops@ =~= seq![
            PortIo::OutL(old(self).registers().2[old(self).descriptor_spec() as int], data),
            PortIo::OutL(old(self).registers().3[old(self).descriptor_spec() as int], (len % 4096) as u32),
            PortIo::InL(old(self).registers().3[old(self).descriptor_spec() as int]),
        ]);
        assert(self.registers() =~= old(self).registers());
        ops
    }

    /// The reads of the six hardware-address registers, in order: the bytes
    /// read are the card's address.
    pub fn address(&self) -> (r: Vec<PortIo>)
        ensures
            r@ == Seq::new(6, |i: int| PortIo::InB(self.registers().4[i])),
    {
        let mut ops: Vec<PortIo> = Vec::new();
        let mut i: usize = 0;
        while i < 6
            invariant
                i <= 6,
                ops@ == Seq::new(i as nat, |k: int| PortIo::InB(self.registers().4[k])),
            decreases 6 - i,
        {
            ops.push(PortIo::InB(self.id[i].number()));
            i = i + 1;
            assert(ops@ =~= Seq::new(i as nat, |k: int| PortIo::InB(self.registers().4[k])));
        }
        ops
    }
}

/// Sending frames uses the four descriptors in turn: after `n` more frames
/// the next descriptor is `n` further on, round the four.
pub proof fn lemma_descriptor_rotation(d: usize, n: nat)
    requires
        d < 4,
    ensures
        descriptor_after(d, n) == (d + n) % 4,
    decreases n,
{
    if n > 0 {
        lemma_descriptor_rotation(d, (n - 1) as nat);
    }
}

/// The descriptor in use after sending `n` frames from descriptor `d`.
pub open spec fn descriptor_after(d: usize, n: nat) -> int
    decreases n,
{
    if n == 0 { d as int } else { (descriptor_after(d, (n - 1) as nat) + 1) % 4 }
}

} // verus!
