//! The PCI bus: configuration addresses, reading a device's configuration
//! header, and the scan of every bus and slot that finds the devices and
//! the RTL8139 network card.
//!
//! The configuration space is reached through two I/O ports; functions here
//! say which addresses to read and which port operations to perform, and
//! take the words read back as arguments.
use vstd::prelude::*;
use crate::cpu::{Port, PortIo};
use crate::rtl8139::{Rtl8139, card_at};

verus! {

/// What a driver declares about the device it drives.
pub struct PciManifest {
    pub register_limit: usize,
    pub device_id: u16,
    pub vendor_id: u16,
    pub bus_master: bool,
}

/// Hands out the ports of a device's I/O window `[base, base + limit)`.
pub struct PortGranter {
    base: usize,
    limit: usize,
}

impl PortGranter {
    /// The window's first port and its length.
    pub closed spec fn window(&self) -> (usize, usize) {
        (self.base, self.limit)
    }

    /// The window of `limit` ports from `base`.
    pub fn new(base: usize, limit: usize) -> (r: PortGranter)
        ensures
            r.window() == (base, limit),
    {
        PortGranter { base, limit }
    }

    /// The port at `offset` in the window (the port number cut to 16 bits).
    /// The offset, cut to 16 bits, must lie below the limit cut to 16 bits.
    pub fn get(&self, offset: usize) -> (r: Port)
        requires
            (offset as u16) < (self.window().1 as u16),
            self.window().0 + offset <= usize::MAX,
        ensures
            r.number_spec() == ((self.window().0 + offset) as u16),
    {
        let address: u16 = (self.base + offset) as u16;
        Port::new(address)
    }
}

/// The configuration-address port.
pub const CONFIG_ADDRESS: u16 = 0xcf8;

/// The configuration-data port.
pub const CONFIG_DATA: u16 = 0xcfc;

/// The PCI configuration mechanism: its address port and data port.
pub struct Pci {
    address_port: Port,
    data_port: Port,
}

/// A function number the configuration mechanism accepts: below 8, with
/// its two low bits clear.
pub open spec fn valid_function(function: u8) -> bool {
    function & 0x03 == 0 && function < 8
}

/// The configuration address of register `offset` of `function` of
/// `device` on `bus`, with the enable bit set.
pub open spec fn config_address(bus: u8, device: u8, function: u8, offset: u8) -> int {
    0x80000000 + bus * 0x10000 + device * 0x800 + function * 0x100 + offset
}

/// The function number of the `i`th word read from byte `start`.
pub open spec fn word_function(start: u16, i: int) -> u8 {
    ((start + 4 * i) / 256) as u8
}

/// The register number of the `i`th word read from byte `start`.
pub open spec fn word_register(start: u16, i: int) -> u8 {
    ((start + 4 * i) % 256) as u8
}

/// The header every device has.
#[derive(Clone, Copy, Debug, PartialEq, Eq, Structural)]
pub struct SharedHeader {
    pub vendor: u16,
    pub device: u16,
    pub command: u16,
    pub status: u16,
    pub revision: u8,
    pub prog_if: u8,
    pub subclass: u8,
    pub class_code: u8,
    pub cache_line_size: u8,
    pub latency_timer: u8,
    pub header_type: u8,
    pub bist: u8,
}

/// The rest of the header of an ordinary device (header type 0).
#[derive(Clone, Copy, Debug)]
pub struct Header1 {
    pub base_addresses: [u32; 6],
    pub cardbus_pointer: u32,
    pub subsystem_vendor: u16,
    pub subsystem: u16,
    pub expansion_rom_address: u32,
    pub capabilities_pointer: u8,
    pub reserved: [u8; 7],
    pub interrupt_line: u8,
    pub interrupt_pin: u8,
    pub min_grant: u8,
    pub max_latency: u8,
}

/// The part of the header that depends on the header type.
#[derive(Clone, Copy, Debug)]
pub enum HeaderType {
    Basic(Header1),
    Todo,
}

/// A device's configuration header.
#[derive(Clone, Copy, Debug)]
pub struct PciHeader {
    pub shared: SharedHeader,
    pub rest: HeaderType,
}

/// Byte `k` (0 is the lowest) of a little-endian word.
pub open spec fn byte_of(w: u32, k: int) -> u8 {
    ((w as int / pow256(k)) % 256) as u8
}

/// 256 to the power `k`, for `k` from 0 to 3.
pub open spec fn pow256(k: int) -> int {
    if k == 0 { 1 } else if k == 1 { 0x100 } else if k == 2 { 0x10000 } else { 0x1000000 }
}

/// The low half of a word.
pub open spec fn low16(w: u32) -> u16 {
    (w % 0x10000) as u16
}

/// The high half of a word.
pub open spec fn high16(w: u32) -> u16 {
    (w / 0x10000) as u16
}

/// The shared header read from the first four words of the configuration
/// space, fields packed little-endian.
pub open spec fn shared_header_of(w: Seq<u32>) -> SharedHeader {
    SharedHeader {
        vendor: low16(w[0]),
        device: high16(w[0]),
        command: low16(w[1]),
        status: high16(w[1]),
        revision: byte_of(w[2], 0),
        prog_if: byte_of(w[2], 1),
        subclass: byte_of(w[2], 2),
        class_code: byte_of(w[2], 3),
        cache_line_size: byte_of(w[3], 0),
        latency_timer: byte_of(w[3], 1),
        header_type: byte_of(w[3], 2),
        bist: byte_of(w[3], 3),
    }
}

/// The type-0 header read from words 4 to 15 of the configuration space.
pub open spec fn header1_of(w: Seq<u32>) -> Header1 {
    Header1 {
        base_addresses: [w[4], w[5], w[6], w[7], w[8], w[9]],
        cardbus_pointer: w[10],
        subsystem_vendor: low16(w[11]),
        subsystem: high16(w[11]),
        expansion_rom_address: w[12],
        capabilities_pointer: byte_of(w[13], 0),
        reserved: [
            byte_of(w[13], 1),
            byte_of(w[13], 2),
            byte_of(w[13], 3),
            byte_of(w[14], 0),
            byte_of(w[14], 1),
            byte_of(w[14], 2),
            byte_of(w[14], 3),
        ],
        interrupt_line: byte_of(w[15], 0),
        interrupt_pin: byte_of(w[15], 1),
        min_grant: byte_of(w[15], 2),
        max_latency: byte_of(w[15], 3),
    }
}

/// The header of the device whose first sixteen configuration words are
/// `w`: none where the vendor reads as 0xffff (no device) or the header
/// type is not 0, 1 or 2; type 0 has its rest read, types 1 and 2 not.
pub open spec fn header_of(w: Seq<u32>) -> Option<PciHeader> {
    let shared = shared_header_of(w);
    if shared.vendor == 0xffff {
        None
    } else if shared.header_type == 0 {
        Some(PciHeader { shared, rest: HeaderType::Basic(header1_of(w)) })
    } else if shared.header_type == 1 || shared.header_type == 2 {
        Some(PciHeader { shared, rest: HeaderType::Todo })
    } else {
        None
    }
}

/// Byte `k` of `w`.
fn word_byte(w: u32, k: u32) -> (r: u8)
    requires
        k < 4,
    ensures
        r == byte_of(w, k as int),
{
    assert({
        &&& w & 0xffu32 == w % 256
        &&& (w >> 8u32) & 0xffu32 == (w / 0x100) % 256
        &&& (w >> 16u32) & 0xffu32 == (w / 0x10000) % 256
        &&& (w >> 24u32) & 0xffu32 == (w / 0x1000000) % 256
    }) by (bit_vector);
    proof {
        vstd::arithmetic::div_mod::lemma_div_basics(w as int);
    }
    if k == 0 {
        (w & 0xff) as u8
    } else if k == 1 {
        ((w >> 8u32) & 0xff) as u8
    } else if k == 2 {
        ((w >> 16u32) & 0xff) as u8
    } else {
        ((w >> 24u32) & 0xff) as u8
    }
}

/// The low half of `w`.
fn word_low(w: u32) -> (r: u16)
    ensures
        r == low16(w),
{
    assert(w & 0xffffu32 == w % 0x10000) by (bit_vector);
    (w & 0xffff) as u16
}

/// The high half of `w`.
fn word_high(w: u32) -> (r: u16)
    ensures
        r == high16(w),
{
    assert(w >> 16u32 == w / 0x10000) by (bit_vector);
    (w >> 16) as u16
}

/// The shared header packed little-endian in four words.
fn parse_shared(w0: u32, w1: u32, w2: u32, w3: u32) -> (r: SharedHeader)
    ensures
        r == shared_header_of(seq![w0, w1, w2, w3]),
{
    SharedHeader {
        vendor: word_low(w0),
        device: word_high(w0),
        command: word_low(w1),
        status: word_high(w1),
        revision: word_byte(w2, 0),
        prog_if: word_byte(w2, 1),
        subclass: word_byte(w2, 2),
        class_code: word_byte(w2, 3),
        cache_line_size: word_byte(w3, 0),
        latency_timer: word_byte(w3, 1),
        header_type: word_byte(w3, 2),
        bist: word_byte(w3, 3),
    }
}

/// The type-0 header from the reads: configuration words 4 to 15 are reads
/// 5 to 16.
fn parse_header1(reads: &Vec<u32>) -> (r: Header1)
    requires
        reads@.len() >= 17,
    ensures
        r == header1_of(reads@.subrange(1, 17)),
{
    let h = Header1 {
        base_addresses: [reads[5], reads[6], reads[7], reads[8], reads[9], reads[10]],
        cardbus_pointer: reads[11],
        subsystem_vendor: word_low(reads[12]),
        subsystem: word_high(reads[12]),
        expansion_rom_address: reads[13],
        capabilities_pointer: word_byte(reads[14], 0),
        reserved: [
            word_byte(reads[14], 1),
            word_byte(reads[14], 2),
            word_byte(reads[14], 3),
            word_byte(reads[15], 0),
            word_byte(reads[15], 1),
            word_byte(reads[15], 2),
            word_byte(reads[15], 3),
        ],
        interrupt_line: word_byte(reads[16], 0),
        interrupt_pin: word_byte(reads[16], 1),
        min_grant: word_byte(reads[16], 2),
        max_latency: word_byte(reads[16], 3),
    };
    assert(h == header1_of(reads@.subrange(1, 17)));
    h
}

/// A step of reading a configuration header: read another word, or done.
#[derive(Debug)]
pub enum HeaderStep {
    Read(Vec<PortIo>),
    Done(Option<PciHeader>),
}

/// Where the next word of a configuration header is read from, given the
/// words read so far, or `None` when the header is complete. First the
/// vendor word (offset 0) is read; a vendor of 0xffff means no device, and
/// nothing more is read. Otherwise the shared header is read, words 0 to 3
/// (so the first word is read twice); with header type 0 the rest of the
/// header follows, words 4 to 15; with any other type nothing more is read.
pub open spec fn next_header_offset(reads: Seq<u32>) -> Option<u8> {
    if reads.len() == 0 {
        Some(0u8)
    } else if low16(reads[0]) == 0xffff {
        None
    } else if reads.len() < 5 {
        Some((4 * (reads.len() - 1)) as u8)
    } else if byte_of(reads[4], 2) != 0 {
        None
    } else if reads.len() < 17 {
        Some((4 * (reads.len() - 1)) as u8)
    } else {
        None
    }
}

/// The header given by the words read: none when the vendor read first is
/// 0xffff or the header type is not 0, 1 or 2; the shared header from the
/// second to fifth reads; for type 0 the rest from the sixth to
/// seventeenth.
pub open spec fn header_read_result(reads: Seq<u32>) -> Option<PciHeader> {
    let shared = shared_header_of(reads.subrange(1, 5));
    if low16(reads[0]) == 0xffff {
        None
    } else if shared.header_type == 0 {
        Some(PciHeader { shared, rest: HeaderType::Basic(header1_of(reads.subrange(1, 17))) })
    } else if shared.header_type == 1 || shared.header_type == 2 {
        Some(PciHeader { shared, rest: HeaderType::Todo })
    } else {
        None
    }
}

/// Reading a header from a device's configuration words `w` reads one word
/// where there is no device, five for header types other than 0, and
/// seventeen for type 0; and gives the header that `w` holds.
pub proof fn lemma_header_reads(w: Seq<u32>)
    requires
        w.len() == 16,
    ensures
        ({
            let all = seq![w[0]] + w;
            let n: int = if low16(w[0]) == 0xffff { 1 } else if byte_of(w[3], 2) != 0 { 5 } else { 17 };
            &&& forall|k: int| 0 <= k < n ==> #[trigger] next_header_offset(all.subrange(0, k)) == Some(
                (if k == 0 { 0 } else { 4 * (k - 1) }) as u8,
            )
            &&& next_header_offset(all.subrange(0, n)) is None
            &&& header_read_result(all.subrange(0, n)) == header_of(w)
        }),
{
    let all = seq![w[0]] + w;
    assert(all.subrange(0, 5).subrange(1, 5) =~= w.subrange(0, 4));
    assert(all.subrange(0, 17).subrange(1, 5) =~= w.subrange(0, 4));
    assert(all.subrange(0, 17).subrange(1, 17) =~= w);
    assert(shared_header_of(w.subrange(0, 4)) == shared_header_of(w));
}

impl Pci {
    /// The address port and the data port.
    pub closed spec fn ports(&self) -> (u16, u16) {
        (self.address_port.number_spec(), self.data_port.number_spec())
    }

    /// The configuration mechanism at ports 0xcf8 and 0xcfc.
    pub fn new() -> (r: Pci)
        ensures
            r.ports() == (CONFIG_ADDRESS, CONFIG_DATA),
    {
        let address_port = Port::new(0xcf8);
        let data_port = Port::new(0xcfc);
        Pci { address_port, data_port }
    }

    /// Prepares the bus: nothing to do.
    pub fn init(&mut self)
        ensures
            *final(self) == *old(self),
    {
    }

    /// The configuration address of register `offset` of `function` of
    /// `device` (below 32) on `bus`.
    pub fn build_address(bus: u8, device: u8, function: u8, offset: u8) -> (r: u32)
        requires
            valid_function(function),
            device < 32,
        ensures
            r == config_address(bus, device, function, offset),
    {
        assert(((0x1u32 << 31u32) | ((bus as u32) << 16u32) | ((device as u32) << 11u32) | ((function as u32) << 8u32)
            | (offset as u32)) == 0x80000000u32 + (bus as u32) * 0x10000 + (device as u32) * 0x800 + (function as u32)
            * 0x100 + (offset as u32)) by (bit_vector)
            requires
                device < 32,
                function < 8,
        ;
        (0x1u32 << 31u32) | ((bus as u32) << 16u32) | ((device as u32) << 11u32) | ((function as u32) << 8u32)
            | (offset as u32)
    }

    /// The port operations that read a configuration word: write its
    /// address to the address port, then read the data port.
    pub fn read(&self, bus: u8, device: u8, function: u8, offset: u8) -> (r: Vec<PortIo>)
        requires
            valid_function(function),
            device < 32,
        ensures
            r@ == seq![
                PortIo::OutL(self.ports().0, config_address(bus, device, function, offset) as u32),
                PortIo::InL(self.ports().1),
            ],
    {
        let address = Pci::build_address(bus, device, function, offset);
        let mut r: Vec<PortIo> = Vec::new();
        r.push(PortIo::OutL(self.address_port.number(), address));
        r.push(PortIo::InL(self.data_port.number()));
        r
    }

    /// The configuration addresses of the `size / 4` words from byte
    /// `start_address` of `device` on `bus`: word `i` is at offset
    /// `start_address + 4 i`, whose low byte is the register and high byte
    /// the function.
    pub fn read_bytes(&self, bus: u8, device: u8, start_address: u16, size: u16) -> (r: Vec<u32>)
        requires
            size % 4 == 0,
            start_address % 4 == 0,
            start_address + size <= u16::MAX,
            device < 32,
            forall|i: int| 0 <= i < size / 4 ==> valid_function(#[trigger] word_function(start_address, i)),
        ensures
            r@.len() == size / 4,
            forall|i: int| 0 <= i < size / 4 ==> #[trigger] r@[i] == config_address(
                bus,
                device,
                word_function(start_address, i),
                word_register(start_address, i),
            ),
    {
        let mut v: Vec<u32> = Vec::new();
        let n = size / 4;
        let mut i: u16 = 0;
        while i < n
            invariant
                n == size / 4,
                i <= n,
                start_address + size <= u16::MAX,
                device < 32,
                forall|k: int| 0 <= k < size / 4 ==> valid_function(#[trigger] word_function(start_address, k)),
                v@.len() == i,
                forall|k: int| 0 <= k < i ==> #[trigger] v@[k] == config_address(
                    bus,
                    device,
                    word_function(start_address, k),
                    word_register(start_address, k),
                ),
            decreases n - i,
        {
            let at: u16 = start_address + i * 4;
            assert(at & 0xffu16 == at % 256) by (bit_vector);
            assert(at >> 8u16 == at / 256) by (bit_vector);
            let offset: u8 = (at & 0xff) as u8;
            let function: u8 = (at >> 8) as u8;
            assert(valid_function(word_function(start_address, i as int)));
            v.push(Pci::build_address(bus, device, function, offset));
            i = i + 1;
        }
        v
    }

    /// The next step of reading the configuration header of `device` on
    /// `bus`, from the words `reads` read so far (see `next_header_offset`):
    /// the port operations that read the next word, or the header read.
    pub fn read_header(&self, bus: u8, device: u8, reads: &Vec<u32>) -> (r: HeaderStep)
        requires
            device < 32,
        ensures
            match r {
                HeaderStep::Read(ops) => next_header_offset(reads@) matches Some(off) && ops@ == seq![
                    PortIo::OutL(self.ports().0, config_address(bus, device, 0, off) as u32),
                    PortIo::InL(self.ports().1),
                ],
                HeaderStep::Done(h) => next_header_offset(reads@) is None && h == header_read_result(reads@),
            },
    {
        assert(0u8 & 0x03u8 == 0u8) by (bit_vector);
        let n = reads.len();
        if n == 0 {
            return HeaderStep::Read(self.read(bus, device, 0, 0));
        }
        let vendor = word_low(reads[0]);
        if vendor == 0xffff {
            return HeaderStep::Done(None);
        }
        if n < 5 {
            let off: u8 = (4 * (n - 1)) as u8;
            return HeaderStep::Read(self.read(bus, device, 0, off));
        }
        let shared = parse_shared(reads[1], reads[2], reads[3], reads[4]);
        assert(reads@.subrange(1, 5) =~= seq![reads@[1], reads@[2], reads@[3], reads@[4]]);
        if shared.header_type == 0 {
            if n < 17 {
                let off: u8 = (4 * (n - 1)) as u8;
                HeaderStep::Read(self.read(bus, device, 0, off))
            } else {
                let h = parse_header1(reads);
                HeaderStep::Done(Some(PciHeader { shared, rest: HeaderType::Basic(h) }))
            }
        } else if shared.header_type == 1 || shared.header_type == 2 {
            HeaderStep::Done(Some(PciHeader { shared, rest: HeaderType::Todo }))
        } else {
            HeaderStep::Done(None)
        }
    }

    /// The writes that turn on bus mastering for the device in slot
    /// (`bus`, `device`), whose header is `header` (see `slot_writes`): to
    /// be made as soon as the header has been read.
    pub fn bus_master(&self, bus: u8, device: u8, header: &Option<PciHeader>) -> (r: Vec<PortIo>)
        requires
            device < 32,
        ensures
            r@ == slot_writes(self.ports(), bus, device, *header),
    {
        let mut writes: Vec<PortIo> = Vec::new();
        match header {
            Some(h) => {
                match &h.rest {
                    HeaderType::Basic(_) => {
                        if (h.shared.vendor == 0x10ec) && (h.shared.device == 0x8139) {
                            assert(0u8 & 0x03u8 == 0u8) by (bit_vector);
                            let address = Pci::build_address(bus, device, 0, 4);
                            writes.push(PortIo::OutL(self.address_port.number(), address));
                            writes.push(PortIo::OutW(self.data_port.number(), h.shared.command | 0x4));
                        }
                    },
                    _ => {},
                }
            },
            None => {},
        }
        assert(writes@ =~= slot_writes(self.ports(), bus, device, *header));
        writes
    }

    /// The scan of every slot from the header read at each, slot
    /// `32 bus + device`: the slots with and without a device, the I/O base
    /// of the last RTL8139, the bus-master writes of every slot in turn (as
    /// `bus_master` gives them, slot by slot), and the driver's card.
    pub fn get_drivers(&self, headers: &Vec<Option<PciHeader>>) -> (r: DeviceScan)
        requires
            headers@.len() == 256 * 32,
        ensures
            r.no_device_count == none_count(headers@),
            r.device_count == headers@.len() - none_count(headers@),
            r.io_offset == rtl_io_offset(headers@),
            r.bus_mastering@ == bus_master_writes(self.ports(), headers@),
            rtl_io_offset(headers@) != 0 ==> (r.card matches Some(c) && card_at(
                c,
                (rtl_io_offset(headers@) % 0x10000) as u16,
            )),
            rtl_io_offset(headers@) == 0 ==> r.card is None,
    {
        let mut no_device_count: usize = 0;
        let mut device_count: usize = 0;
        let mut io_offset: u32 = 0;
        let mut writes: Vec<PortIo> = Vec::new();
        let mut bus: usize = 0;
        while bus < 256
            invariant
                headers@.len() == 256 * 32,
                bus <= 256,
                no_device_count == none_count(headers@.subrange(0, 32 * bus as int)),
                device_count + no_device_count == 32 * bus,
                io_offset == rtl_io_offset(headers@.subrange(0, 32 * bus as int)),
                writes@ == bus_master_writes(self.ports(), headers@.subrange(0, 32 * bus as int)),
            decreases 256 - bus,
        {
            let mut device: usize = 0;
            while device < 32
                invariant
                    headers@.len() == 256 * 32,
                    bus < 256,
                    device <= 32,
                    no_device_count == none_count(headers@.subrange(0, 32 * bus + device)),
                    device_count + no_device_count == 32 * bus + device,
                    io_offset == rtl_io_offset(headers@.subrange(0, 32 * bus + device)),
                    writes@ == bus_master_writes(self.ports(), headers@.subrange(0, 32 * bus + device)),
                decreases 32 - device,
            {
                let slot = 32 * bus + device;
                let ghost before = headers@.subrange(0, slot as int);
                assert(headers@.subrange(0, slot + 1) =~= before.push(headers@[slot as int]));
                assert(headers@.subrange(0, slot + 1).drop_last() =~= before);
                let slot_ops = self.bus_master(bus as u8, device as u8, &headers[slot]);
                match &headers[slot] {
                    None => no_device_count = no_device_count + 1,
                    Some(header) => {
                        device_count = device_count + 1;
                        let shared = header.shared;
                        match &header.rest {
                            HeaderType::Basic(next) => {
                                if (shared.vendor == 0x10ec) && (shared.device == 0x8139) {
                                    let bar = next.base_addresses[0];
                                    assert((bar >> 2u32) << 2u32 == bar - bar % 4) by (bit_vector);
                                    io_offset = (bar >> 2) << 2;
                                }
                            },
                            _ => {},
                        }
                    },
                }
                push_ops(&mut writes, &slot_ops);
                assert(32 * bus + device == slot);
                assert(slot as int / 32 == bus && slot as int % 32 == device);
                device = device + 1;
            }
            bus = bus + 1;
        }
        assert(headers@.subrange(0, 8192int) =~= headers@);
        let card = if io_offset != 0 {
            let window: u16 = (io_offset % 0x10000) as u16;
            Some(Rtl8139::new(window))
        } else {
            None
        };
        DeviceScan { no_device_count, device_count, io_offset, bus_mastering: writes, card }
    }
}

/// Appends `more` to `v`.
fn push_ops(v: &mut Vec<PortIo>, more: &Vec<PortIo>)
    ensures
        final(v)@ == old(v)@ + more@,
{
    let mut i: usize = 0;
    while i < more.len()
        invariant
            i <= more@.len(),
            v@ == old(v)@ + more@.subrange(0, i as int),
        decreases more@.len() - i,
    {
        v.push(more[i]);
        i = i + 1;
        assert(v@ =~= old(v)@ + more@.subrange(0, i as int));
    }
    assert(more@.subrange(0, more@.len() as int) =~= more@);
}

/// What the scan of the bus found: slots with no device, slots with a
/// device, the I/O base of the RTL8139 (0 when there is none), the port
/// writes that turn on bus mastering for each RTL8139, and the driver's card
/// at that base (cut to a port number) when there is one.
pub struct DeviceScan {
    pub no_device_count: usize,
    pub device_count: usize,
    pub io_offset: u32,
    pub bus_mastering: Vec<PortIo>,
    pub card: Option<Rtl8139>,
}

/// Whether a header is that of an RTL8139 with a type-0 header.
pub open spec fn is_rtl8139(h: PciHeader) -> bool {
    &&& h.shared.vendor == 0x10ec
    &&& h.shared.device == 0x8139
    &&& h.rest is Basic
}

/// How many slots hold no device.
pub open spec fn none_count(hs: Seq<Option<PciHeader>>) -> int
    decreases hs.len(),
{
    if hs.len() == 0 {
        0
    } else {
        none_count(hs.drop_last()) + if hs.last() is None { 1int } else { 0int }
    }
}

/// The I/O base (first base address with its two low bits cleared) of the
/// last RTL8139 among the slots, or 0.
pub open spec fn rtl_io_offset(hs: Seq<Option<PciHeader>>) -> u32
    decreases hs.len(),
{
    if hs.len() == 0 {
        0
    } else {
        match hs.last() {
            Some(h) => if is_rtl8139(h) {
                match h.rest {
                    HeaderType::Basic(next) => (next.base_addresses[0] - next.base_addresses[0] % 4) as u32,
                    HeaderType::Todo => 0,
                }
            } else {
                rtl_io_offset(hs.drop_last())
            },
            None => rtl_io_offset(hs.drop_last()),
        }
    }
}

/// The writes that set the bus-master bit of the device in slot (`bus`,
/// `device`) when it is an RTL8139: its command register's address
/// (register 4 of function 0) to the address port, then the command with
/// bit 2 set to the data port. None for any other slot.
pub open spec fn slot_writes(ports: (u16, u16), bus: u8, device: u8, h: Option<PciHeader>) -> Seq<PortIo> {
    match h {
        Some(h) => if is_rtl8139(h) {
            seq![
                PortIo::OutL(ports.0, config_address(bus, device, 0, 4) as u32),
                PortIo::OutW(ports.1, h.shared.command | 0x4),
            ]
        } else {
            Seq::empty()
        },
        None => Seq::empty(),
    }
}

/// The writes of `slot_writes` for each slot in turn, slot `32 bus + device`.
pub open spec fn bus_master_writes(ports: (u16, u16), hs: Seq<Option<PciHeader>>) -> Seq<PortIo>
    decreases hs.len(),
{
    if hs.len() == 0 {
        Seq::empty()
    } else {
        let slot = hs.len() - 1;
        bus_master_writes(ports, hs.drop_last()) + slot_writes(ports, (slot / 32) as u8, (slot % 32) as u8, hs.last())
    }
}

/// Every configuration address has the enable bit set and gives back its
/// bus, device, function and register.
pub proof fn lemma_config_address_fields(bus: u8, device: u8, function: u8, offset: u8)
    requires
        valid_function(function),
        device < 32,
    ensures
        ({
            let a = config_address(bus, device, function, offset);
            &&& a / 0x80000000 == 1
            &&& (a / 0x10000) % 256 == bus
            &&& (a / 0x800) % 32 == device
            &&& (a / 0x100) % 8 == function
            &&& a % 256 == offset
        }),
{
    let b = bus as u32;
    let d = device as u32;
    let f = function as u32;
    let o = offset as u32;
    assert(f < 8) by (bit_vector)
        requires
            function & 0x03u8 == 0u8,
            function < 8u8,
            f == function as u32,
    ;
    assert({
        &&& (0x80000000 + b * 0x10000 + d * 0x800 + f * 0x100 + o) / 0x80000000 == 1
        &&& ((0x80000000 + b * 0x10000 + d * 0x800 + f * 0x100 + o) / 0x10000) % 256 == b
        &&& ((0x80000000 + b * 0x10000 + d * 0x800 + f * 0x100 + o) / 0x800) % 32 == d
        &&& ((0x80000000 + b * 0x10000 + d * 0x800 + f * 0x100 + o) / 0x100) % 8 == f
        &&& (0x80000000 + b * 0x10000 + d * 0x800 + f * 0x100 + o) % 256 == o
    }) by (bit_vector)
        requires
            b < 256,
            d < 32,
            f < 8,
            o < 256,
    ;
}

/// Reading a header and writing its fields back in place gives the words
/// read: the parse loses nothing of the shared header.
pub proof fn lemma_shared_header_words(w: Seq<u32>)
    requires
        w.len() >= 4,
    ensures
        ({
            let h = shared_header_of(w);
            &&& h.vendor + 0x10000 * h.device == w[0]
            &&& h.command + 0x10000 * h.status == w[1]
            &&& h.revision + 0x100 * h.prog_if + 0x10000 * h.subclass + 0x1000000 * h.class_code == w[2]
            &&& h.cache_line_size + 0x100 * h.latency_timer + 0x10000 * h.header_type + 0x1000000 * h.bist == w[3]
        }),
{
    let w2 = w[2];
    let w3 = w[3];
    assert(w2 == w2 % 256 + 0x100 * ((w2 / 0x100) % 256) + 0x10000 * ((w2 / 0x10000) % 256) + 0x1000000 * ((
    w2 / 0x1000000) % 256)) by (bit_vector);
    assert(w3 == w3 % 256 + 0x100 * ((w3 / 0x100) % 256) + 0x10000 * ((w3 / 0x10000) % 256) + 0x1000000 * ((
    w3 / 0x1000000) % 256)) by (bit_vector);
    vstd::arithmetic::div_mod::lemma_div_basics(w2 as int);
    vstd::arithmetic::div_mod::lemma_div_basics(w3 as int);
}

/// Turning on bus mastering for an RTL8139 writes its command register's
/// address (bus, device, function 0, register 4) to the address port, then
/// the header's command with bit 2 (bus master) set and every other bit
/// kept to the data port; no other slot gets a write.
pub proof fn lemma_bus_master_sets_bit_2(ports: (u16, u16), bus: u8, device: u8, h: Option<PciHeader>)
    ensures
        ({
            let ws = slot_writes(ports, bus, device, h);
            match h {
                Some(hd) => if hd.shared.vendor == 0x10ec && hd.shared.device == 0x8139 && hd.rest is Basic {
                    &&& ws.len() == 2
                    &&& ws[0] == PortIo::OutL(ports.0, (0x80000000 + 0x10000 * bus + 0x800 * device + 4) as u32)
                    &&& ws[1] matches PortIo::OutW(p, v) && p == ports.1 && v & 0x4 == 0x4 && v & !0x4u16
                        == hd.shared.command & !0x4u16
                } else {
                    ws.len() == 0
                },
                None => ws.len() == 0,
            }
        }),
{
    if let Some(hd) = h {
        let c = hd.shared.command;
        assert((c | 0x4u16) & 0x4u16 == 0x4u16 && (c | 0x4u16) & !0x4u16 == c & !0x4u16) by (bit_vector);
    }
}

/// The four bytes `a`, `b`, `c`, `d` (lowest first) make the word `w`.
pub open spec fn packs(w: u32, a: u8, b: u8, c: u8, d: u8) -> bool {
    a + 0x100 * b + 0x10000 * c + 0x1000000 * d == w
}

/// A type-0 header's fields repack into configuration words 4 to 15: base
/// address `i` is word `4 + i`, then the CardBus pointer, the subsystem
/// vendor and subsystem, the expansion ROM address, the capabilities
/// pointer and reserved bytes, and the interrupt line, pin, minimum grant
/// and maximum latency, each little-endian at its place.
pub proof fn lemma_header1_words(w: Seq<u32>)
    requires
        w.len() >= 16,
    ensures
        ({
            let h = header1_of(w);
            &&& forall|i: int| 0 <= i < 6 ==> h.base_addresses@[i] == w[4 + i]
            &&& h.cardbus_pointer == w[10]
            &&& h.subsystem_vendor + 0x10000 * h.subsystem == w[11]
            &&& h.expansion_rom_address == w[12]
            &&& packs(w[13], h.capabilities_pointer, h.reserved@[0], h.reserved@[1], h.reserved@[2])
            &&& packs(w[14], h.reserved@[3], h.reserved@[4], h.reserved@[5], h.reserved@[6])
            &&& packs(w[15], h.interrupt_line, h.interrupt_pin, h.min_grant, h.max_latency)
        }),
{
    let h = header1_of(w);
    assert(forall|i: int| 0 <= i < 6 ==> h.base_addresses@[i] == w[4 + i]);
    let w11 = w[11];
    let w13 = w[13];
    let w14 = w[14];
    let w15 = w[15];
    assert(w11 == w11 % 0x10000 + 0x10000 * (w11 / 0x10000)) by (bit_vector);
    assert(w13 == w13 % 256 + 0x100 * ((w13 / 0x100) % 256) + 0x10000 * ((w13 / 0x10000) % 256) + 0x1000000 * ((
    w13 / 0x1000000) % 256)) by (bit_vector);
    assert(w14 == w14 % 256 + 0x100 * ((w14 / 0x100) % 256) + 0x10000 * ((w14 / 0x10000) % 256) + 0x1000000 * ((
    w14 / 0x1000000) % 256)) by (bit_vector);
    assert(w15 == w15 % 256 + 0x100 * ((w15 / 0x100) % 256) + 0x10000 * ((w15 / 0x10000) % 256) + 0x1000000 * ((
    w15 / 0x1000000) % 256)) by (bit_vector);
    vstd::arithmetic::div_mod::lemma_div_basics(w13 as int);
    vstd::arithmetic::div_mod::lemma_div_basics(w14 as int);
    vstd::arithmetic::div_mod::lemma_div_basics(w15 as int);
}

/// Reading a device with a type-0 header gives, as its rest, the fields
/// that repack into its configuration words 4 to 15 (see
/// `lemma_header1_words`): base address `i` is word `4 + i`.
pub proof fn lemma_read_header_base_addresses(w: Seq<u32>)
    requires
        w.len() == 16,
        low16(w[0]) != 0xffff,
        byte_of(w[3], 2) == 0,
    ensures
        header_read_result(seq![w[0]] + w) matches Some(hd) && hd.rest matches HeaderType::Basic(h1) && (forall|
            i: int,
        |
            0 <= i < 6 ==> h1.base_addresses@[i] == w[4 + i]) && h1.cardbus_pointer == w[10] && h1.expansion_rom_address
            == w[12],
{
    lemma_header_reads(w);
    let all = seq![w[0]] + w;
    assert(all.subrange(0, 17) =~= all);
    lemma_header1_words(w);
}

} // verus!
