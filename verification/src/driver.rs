//! What a device driver offers: starting the device, and for network cards
//! sending a frame and telling the hardware address.
use vstd::prelude::*;

verus! {

/// A device driver.
pub trait Driver {
    /// Starts the device.
    fn init(&mut self);
}

/// A network card's driver.
pub trait NetworkDriver: Driver {
    /// Sends one frame.
    fn put_frame(&mut self, bytes: &[u8]) -> Result<(), ()>;

    /// The card's hardware address.
    fn address(&mut self) -> [u8; 6];
}

} // verus!
