//! An interrupt table described only by its register value: its size in
//! bytes and its address. Adding a entry says where the entry goes.
use vstd::prelude::*;
use crate::idt::{IDTEntry, entry_for};

verus! {

/// The table-register value: size in bytes and address.
pub struct IDT {
    limit: u16,
    base: u32,
}

impl IDT {
    /// The size of the table in bytes.
    pub closed spec fn limit(&self) -> u16 {
        self.limit
    }

    /// The address of the table.
    pub closed spec fn base(&self) -> u32 {
        self.base
    }

    /// A table of `size` entries; the entries start six bytes after `mem`.
    pub fn new(mem: u32, size: u16) -> (r: IDT)
        requires
            size * 8 <= u16::MAX,
            mem + 6 <= u32::MAX,
        ensures
            r.limit() == size * 8,
            r.base() == mem + 6,
    {
        IDT { limit: size * 8, base: mem + 6 }
    }

    /// The table's size in bytes and its address.
    pub fn descriptor(&self) -> (r: (u16, u32))
        ensures
            r == (self.limit(), self.base()),
    {
        (self.limit, self.base)
    }

    /// The address of entry `index` and the entry for the handler at `handler`
    /// to store there.
    pub fn add_entry(&self, index: u32, handler: u32) -> (r: (u32, IDTEntry))
        requires
            self.base() + index * 8 <= u32::MAX,
        ensures
            r.0 == self.base() + index * 8,
            r.1 == entry_for(handler),
    {
        (self.base + index * 8, IDTEntry::new(handler))
    }
}

} // verus!
