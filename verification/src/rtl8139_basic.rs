//! The RTL8139 network card driven through a single transmit descriptor:
//! its registers, the start-up sequence and sending a frame.
use vstd::prelude::*;
use crate::cpu::{Port, PortIo};
use crate::rtl8139::{InitStep, init_plan, init_step, port_at, window_port};
use crate::console::{Terminal, console_put_chars};
use crate::context::{format_hex, lower_hex};
use crate::log::{debug, decimal, format_decimal, log_line, push_all};
use vstd::string::StringSliceAdditionalSpecFns;

verus! {

/// The card's command, transmit and configuration registers.
pub struct Rtl8139 {
    command_register: Port,
    transmit_address: Port,
    transmit_status: Port,
    config_1: Port,
}

impl Rtl8139 {
    /// The command register, transmit address register, transmit status
    /// register and configuration register 1.
    pub closed spec fn registers(&self) -> (u16, u16, u16, u16) {
        (
            self.command_register.number_spec(),
            self.transmit_address.number_spec(),
            self.transmit_status.number_spec(),
            self.config_1.number_spec(),
        )
    }

    /// The card whose I/O window starts at `io_offset`: command register at
    /// +0x37, transmit address at +0x20, transmit status at +0x10,
    /// configuration register 1 at +0x52 (see `port_at`).
    pub fn new(io_offset: u16) -> (r: Rtl8139)
        ensures
            r.registers() == (
                port_at(io_offset, 0x37),
                port_at(io_offset, 0x20),
                port_at(io_offset, 0x10),
                port_at(io_offset, 0x52),
            ),
    {
        Rtl8139 {
            config_1: window_port(io_offset, 0x52),
            command_register: window_port(io_offset, 0x37),
            transmit_address: window_port(io_offset, 0x20),
            transmit_status: window_port(io_offset, 0x10),
        }
    }

    /// One step of the card's start-up sequence (see `init_plan`).
    pub fn init(&self, step: InitStep, last_read: u8) -> (r: (InitStep, Vec<PortIo>))
        ensures
            (r.0, r.1@) == init_plan(self.registers().3, self.registers().0, step, last_read),
    {
        init_step(self.config_1.number(), self.command_register.number(), step, last_read)
    }

    /// Sends the `len`-byte frame at address `data`, logging
    /// `sending <len> bytes` first (see `sending_line`). The port operations:
    /// write the address to the transmit address register; read the
    /// transmit status register (its value is logged by `report_status`,
    /// before the send); write the length (low 12 bits) to it; read it again
    /// (logged after the send); then read it until the frame has gone.
    pub fn put_frame(&self, data: u32, len: usize, term: &mut Terminal) -> (r: Vec<PortIo>)
        requires
            old(term).wf(),
        ensures
            final(term).wf(),
            final(term)@ == console_put_chars(old(term)@, sending_line(len)),
            r@ == seq![
                PortIo::OutL(self.registers().1, data),
                PortIo::InL(self.registers().2),
                PortIo::OutL(self.registers().2, (len % 4096) as u32),
                PortIo::InL(self.registers().2),
                PortIo::InL(self.registers().2),
            ],
    {
        let mut m: Vec<u8> = Vec::new();
        push_all(&mut m, "sending ".as_bytes());
        push_all(&mut m, format_decimal(len).as_slice());
        push_all(&mut m, " bytes".as_bytes());
        debug(term, "src/rtl8139_basic.rs", 85, m.as_slice());
        let l: u32 = (len & 0xfff) as u32;
        assert(len & 0xfffusize == len % 4096) by (bit_vector);
        let status = self.transmit_status.number();
        let mut ops: Vec<PortIo> = Vec::new();
        ops.push(PortIo::OutL(self.transmit_address.number(), data));
        ops.push(PortIo::InL(status));
        ops.push(PortIo::OutL(status, l));
        ops.push(PortIo::InL(status));
        ops.push(PortIo::InL(status));
        assert(ops@ =~= seq![
            PortIo::OutL(self.registers().1, data),
            PortIo::InL(self.registers().2),
            PortIo::OutL(self.registers().2, (len % 4096) as u32),
            PortIo::InL(self.registers().2),
            PortIo::InL(self.registers().2),
        ]);
        ops
    }
}

/// The debug line that `put_frame` logs for a frame of `len` bytes.
pub open spec fn sending_line(len: usize) -> Seq<u8> {
    log_line(
        "DEBUG".spec_bytes(),
        "src/rtl8139_basic.rs".spec_bytes(),
        85,
        "sending ".spec_bytes() + decimal(len as nat) + " bytes".spec_bytes(),
    )
}

/// The debug line logged for the transmit status `status` read before the
/// send, or after it where `after` holds.
pub open spec fn status_line(after: bool, status: u32) -> Seq<u8> {
    log_line(
        "DEBUG".spec_bytes(),
        "src/rtl8139_basic.rs".spec_bytes(),
        if after { 147 } else { 149 },
        "transmit_status ".spec_bytes() + (if after { "after" } else { "before" }).spec_bytes()
            + " send is 0x".spec_bytes() + lower_hex(status as nat),
    )
}

/// Logs the transmit status `status` read before the send, or after it
/// where `after` holds (see `status_line`).
pub fn report_status(term: &mut Terminal, after: bool, status: u32)
    requires
        old(term).wf(),
    ensures
        final(term).wf(),
        final(term)@ == console_put_chars(old(term)@, status_line(after, status)),
{
    let mut m: Vec<u8> = Vec::new();
    push_all(&mut m, "transmit_status ".as_bytes());
    if after {
        push_all(&mut m, "after".as_bytes());
    } else {
        push_all(&mut m, "before".as_bytes());
    }
    push_all(&mut m, " send is 0x".as_bytes());
    push_all(&mut m, format_hex(status).as_slice());
    if after {
        debug(term, "src/rtl8139_basic.rs", 147, m.as_slice());
    } else {
        debug(term, "src/rtl8139_basic.rs", 149, m.as_slice());
    }
}

} // verus!
