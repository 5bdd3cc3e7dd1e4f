//! The global descriptor table: where it lives, how many entries it has
//! room for, and the eight-byte encoding of a segment descriptor.
//!
//! Storing the descriptor bytes and loading the table register are left to
//! the caller; this module says which bytes go where.
use vstd::prelude::*;

verus! {

/// The value loaded into the descriptor-table register: the table's size in
/// bytes and its address.
#[derive(Clone, Copy, Debug, PartialEq, Eq, Structural)]
pub struct GDTReal {
    pub limit: u16,
    pub base: u32,
}

/// A descriptor table being filled: the number of entries written so far,
/// and the register value that describes the table.
pub struct GDT {
    index: u32,
    real: GDTReal,
}

/// A limit above 64 KiB is stored in units of 4 KiB.
pub open spec fn in_pages(limit: u32) -> bool {
    limit > 65536
}

/// The 20-bit limit field stored for `limit`.
pub open spec fn limit_field(limit: u32) -> int {
    if in_pages(limit) { (limit / 4096) as int } else { limit as int }
}

/// The eight bytes of the descriptor for a segment at `base` with `limit`
/// and access byte `typ`: limit bits 0-15, base bits 0-23, the access
/// byte, the flags (4 KiB granularity or byte granularity, 32-bit) with
/// limit bits 16-19, and base bits 24-31.
pub open spec fn gdt_entry_bytes(limit: u32, base: u32, typ: u8) -> Seq<u8> {
    let l = limit_field(limit);
    let flags: int = if in_pages(limit) { 0xC0 } else { 0x40 };
    seq![
        (l % 256) as u8,
        ((l / 256) % 256) as u8,
        (base % 256) as u8,
        ((base / 256) % 256) as u8,
        ((base / 65536) % 256) as u8,
        typ,
        (flags + (l / 65536) % 16) as u8,
        (base / 16777216) as u8,
    ]
}

/// The descriptor bytes for a segment at `base` with `limit` and access
/// byte `typ`.
pub fn encode_gdt_entry(limit: u32, base: u32, typ: u8) -> (r: [u8; 8])
    ensures
        r@ == gdt_entry_bytes(limit, base, typ),
{
    let mut lim: u32 = limit;
    let mut flags: u8;
    if lim > 65536 {
        lim = lim >> 12u32;
        flags = 0xC0;
    } else {
        flags = 0x40;
    }
    assert(limit > 65536 ==> limit >> 12u32 == limit / 4096) by (bit_vector);
    assert({
        &&& lim & 0xFFu32 == lim % 256
        &&& (lim >> 8u32) & 0xFFu32 == (lim / 256) % 256
        &&& (lim >> 16u32) & 0xFu32 == (lim / 65536) % 16
        &&& base & 0xFFu32 == base % 256
        &&& (base >> 8u32) & 0xFFu32 == (base / 256) % 256
        &&& (base >> 16u32) & 0xFFu32 == (base / 65536) % 256
        &&& (base >> 24u32) & 0xFFu32 == base / 16777216
    }) by (bit_vector);
    let high: u8 = ((lim >> 16u32) & 0xFu32) as u8;
    assert(flags | high == flags + high) by (bit_vector)
        requires
            flags == 0xC0u8 || flags == 0x40u8,
            high < 16,
    ;
    flags = flags | high;
    let r: [u8; 8] = [
        (lim & 0xFFu32) as u8,
        ((lim >> 8u32) & 0xFFu32) as u8,
        (base & 0xFFu32) as u8,
        ((base >> 8u32) & 0xFFu32) as u8,
        ((base >> 16u32) & 0xFFu32) as u8,
        typ,
        flags,
        ((base >> 24u32) & 0xFFu32) as u8,
    ];
    assert(r@ =~= gdt_entry_bytes(limit, base, typ));
    r
}

/// Reading a descriptor back gives the base exactly, the granularity flag
/// exactly when the limit is above 64 KiB, and the limit: exactly in bytes,
/// or in 4 KiB pages rounded down.
pub proof fn lemma_gdt_entry_decodes(limit: u32, base: u32, typ: u8)
    ensures
        ({
            let b = gdt_entry_bytes(limit, base, typ);
            let field = b[0] + 256 * b[1] + 65536 * (b[6] % 16);
            &&& b.len() == 8
            &&& b[2] + 256 * b[3] + 65536 * b[4] + 16777216 * b[7] == base
            &&& b[5] == typ
            &&& (b[6] >= 0x80) == in_pages(limit)
            &&& !in_pages(limit) ==> field == limit
            &&& in_pages(limit) ==> field * 4096 <= limit < (field + 1) * 4096
        }),
{
    let b = gdt_entry_bytes(limit, base, typ);
    assert(base == base % 256 + 256 * ((base / 256) % 256) + 65536 * ((base / 65536) % 256)
        + 16777216 * (base / 16777216)) by (bit_vector);
    if in_pages(limit) {
        let l = limit / 4096;
        assert(l < 1048576);
        assert(l == l % 256 + 256 * ((l / 256) % 256) + 65536 * ((l / 65536) % 16)) by (bit_vector)
            requires
                l < 1048576,
        ;
        assert(l * 4096 <= limit < (l + 1) * 4096);
    } else {
        let l = limit;
        assert(l == l % 256 + 256 * ((l / 256) % 256) + 65536 * ((l / 65536) % 16)) by (bit_vector)
            requires
                l <= 65536,
        ;
    }
}

impl GDT {
    /// Entries written so far.
    pub closed spec fn index(&self) -> u32 {
        self.index
    }

    /// The register value describing the table.
    pub closed spec fn register_spec(&self) -> GDTReal {
        self.real
    }

    /// An empty table at `mem` with room for `size` eight-byte entries.
    pub fn new(mem: u32, size: u16) -> (r: GDT)
        requires
            size * 8 <= u16::MAX,
        ensures
            r.index() == 0,
            r.register_spec() == (GDTReal { limit: (size * 8) as u16, base: mem }),
    {
        GDT { index: 0, real: GDTReal { limit: size * 8, base: mem } }
    }

    /// Adds a descriptor for a segment at `base` with `limit` and access
    /// byte `typ`: returns the address of the next entry and the eight bytes
    /// to store there.
    pub fn add_entry(&mut self, base: u32, limit: u32, typ: u8) -> (r: (u32, [u8; 8]))
        requires
            old(self).index() * 8 + old(self).register_spec().base <= u32::MAX,
        ensures
            r.0 == old(self).index() * 8 + old(self).register_spec().base,
            r.1@ == gdt_entry_bytes(limit, base, typ),
            final(self).index() == old(self).index() + 1,
            final(self).register_spec() == old(self).register_spec(),
    {
        let target = self.index * 8 + self.real.base;
        let bytes = encode_gdt_entry(limit, base, typ);
        self.index = self.index + 1;
        (target, bytes)
    }

    /// The register value to load for this table.
    pub fn register_value(&self) -> (r: GDTReal)
        ensures
            r == self.register_spec(),
    {
        self.real
    }
}

} // verus!
