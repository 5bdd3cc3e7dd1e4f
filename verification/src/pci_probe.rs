//! Probing the PCI bus for devices: reading configuration words through a
//! given pair of ports, and counting the slots with and without a device.
use vstd::prelude::*;
use crate::cpu::{Port, PortIo};
use crate::pci::{valid_function, config_address, low16};

verus! {

/// The configuration mechanism on a given address port and data port.
pub struct Pci {
    address_port: Port,
    data_port: Port,
}

/// How a configuration word is obtained: a fixed value, or the port
/// operations whose last read gives it.
#[derive(Debug)]
pub enum ConfigRead {
    Value(u32),
    Ports(Vec<PortIo>),
}

/// The slot of `device` on `bus` in the probe order.
pub open spec fn slot(bus: int, device: int) -> int {
    32 * bus + device
}

/// How many of the words read have 0xffff as their low half: slots with no
/// device.
pub open spec fn absent_count(ids: Seq<u32>) -> int
    decreases ids.len(),
{
    if ids.len() == 0 {
        0
    } else {
        absent_count(ids.drop_last()) + if low16(ids.last()) == 0xffff { 1int } else { 0int }
    }
}

impl Pci {
    /// The address port and the data port.
    pub closed spec fn ports(&self) -> (u16, u16) {
        (self.address_port.number_spec(), self.data_port.number_spec())
    }

    /// The mechanism on the given ports.
    pub fn new(address_port: Port, data_port: Port) -> (r: Pci)
        ensures
            r.ports() == (address_port.number_spec(), data_port.number_spec()),
    {
        Pci { address_port, data_port }
    }

    /// Prepares the bus: nothing to do.
    pub fn init(&mut self)
        ensures
            *final(self) == *old(self),
    {
    }

    /// Reading register `offset` of `function` of `device` on `bus`: the
    /// value 1 for a function or device the mechanism cannot address;
    /// otherwise writing the configuration address to the address port and
    /// reading the word back from the address port.
    pub fn read(&self, bus: u8, device: u8, function: u8, offset: u8) -> (r: ConfigRead)
        ensures
            !(valid_function(function) && device < 32) ==> (r matches ConfigRead::Value(v) && v == 1),
            (valid_function(function) && device < 32) ==> (r matches ConfigRead::Ports(ops) && ops@ == seq![
                PortIo::OutL(self.ports().0, config_address(bus, device, function, offset) as u32),
                PortIo::InL(self.ports().0),
            ]),
    {
        assert(0x1u8 << 5u8 == 32u8 && 0x1u8 << 3u8 == 8u8) by (bit_vector);
        if (function & 0x03 != 0x00) || (device >= 0x1u8 << 5u8) || (function >= 0x1u8 << 3u8) {
            ConfigRead::Value(1)
        } else {
            let address = crate::pci::Pci::build_address(bus, device, function, offset);
            let mut ops: Vec<PortIo> = Vec::new();
            ops.push(PortIo::OutL(self.address_port.number(), address));
            ops.push(PortIo::InL(self.address_port.number()));
            ConfigRead::Ports(ops)
        }
    }

    /// From the first configuration word of every slot (slot
    /// `32 bus + device`), the number of slots without a device (vendor
    /// 0xffff) and with one.
    pub fn check_devices(&self, ids: &Vec<u32>) -> (r: (u32, u32))
        requires
            ids@.len() == 256 * 32,
        ensures
            r.0 == absent_count(ids@),
            r.1 == 256 * 32 - absent_count(ids@),
    {
        let mut no_device_count: u32 = 0;
        let mut i: usize = 0;
        while i < ids.len()
            invariant
                ids@.len() == 256 * 32,
                i <= ids@.len(),
                no_device_count == absent_count(ids@.subrange(0, i as int)),
                no_device_count <= i,
            decreases ids@.len() - i,
        {
            assert(ids@.subrange(0, i + 1).drop_last() =~= ids@.subrange(0, i as int));
            let id: u32 = ids[i];
            assert((id & 0xffffu32) == id % 0x10000) by (bit_vector);
            let vendor: u16 = (id & 0xffff) as u16;
            if vendor == 0xffff {
                no_device_count = no_device_count + 1;
            }
            i = i + 1;
        }
        assert(ids@.subrange(0, ids@.len() as int) =~= ids@);
        (no_device_count, 256 * 32 - no_device_count)
    }
}

} // verus!
