//! The interrupt descriptor table: 256 entries, each pointing at a handler in
//! the kernel code segment.
//!
//! Loading the table register and enabling interrupts are left to the
//! caller; this module keeps the table's contents.
use vstd::prelude::*;

verus! {

/// Number of entries in the table.
pub const IDT_SIZE: usize = 256;

/// One interrupt entry: the handler's address split in two halves, the code
/// segment selector, and the entry's type and attributes.
#[derive(Clone, Copy, Debug, PartialEq, Eq, Structural)]
pub struct IDTEntry {
    pub offset_lower: u16,
    pub selector: u16,
    pub zero: u8,
    pub type_attr: u8,
    pub offset_upper: u16,
}

/// The entry for the handler at address `handler`: kernel code segment
/// (selector 0x08), present 32-bit interrupt entry (0x8E).
pub open spec fn entry_for(handler: u32) -> IDTEntry {
    IDTEntry {
        offset_lower: (handler % 65536) as u16,
        selector: 0x08,
        zero: 0,
        type_attr: 0x8E,
        offset_upper: (handler / 65536) as u16,
    }
}

/// The eight bytes of entry `e` as the processor reads them: each field
/// little-endian, in field order.
pub open spec fn entry_bytes(e: IDTEntry) -> Seq<u8> {
    seq![
        (e.offset_lower % 256) as u8,
        (e.offset_lower / 256) as u8,
        (e.selector % 256) as u8,
        (e.selector / 256) as u8,
        e.zero,
        e.type_attr,
        (e.offset_upper % 256) as u8,
        (e.offset_upper / 256) as u8,
    ]
}

/// The entry held in the eight bytes `b` (see `entry_bytes`).
pub open spec fn entry_of_bytes(b: Seq<u8>) -> IDTEntry {
    IDTEntry {
        offset_lower: (b[0] + 256 * b[1]) as u16,
        selector: (b[2] + 256 * b[3]) as u16,
        zero: b[4],
        type_attr: b[5],
        offset_upper: (b[6] + 256 * b[7]) as u16,
    }
}

/// The bytes of a table of entries `t`, entry after entry.
pub open spec fn table_bytes(t: Seq<IDTEntry>) -> Seq<u8> {
    Seq::new(8 * t.len(), |i: int| entry_bytes(t[i / 8])[i % 8])
}

/// The value loaded into the table register: size in bytes and address.
#[derive(Clone, Copy, Debug, PartialEq, Eq, Structural)]
pub struct IDTLayout {
    pub limit: u16,
    pub base: u32,
}

impl IDTEntry {
    /// The entry for the handler at address `handler`.
    pub fn new(handler: u32) -> (r: IDTEntry)
        ensures
            r == entry_for(handler),
    {
        assert((handler & 0xffffu32) == handler % 65536 && (handler >> 16u32) == handler / 65536) by (bit_vector);
        IDTEntry {
            offset_lower: (handler & 0xffff) as u16,
            selector: 0x08,
            zero: 0,
            type_attr: 0x8E,
            offset_upper: (handler >> 16) as u16,
        }
    }

    /// The eight bytes of the entry (see `entry_bytes`).
    pub fn to_bytes(&self) -> (r: [u8; 8])
        ensures
            r@ == entry_bytes(*self),
    {
        let r: [u8; 8] = [
            (self.offset_lower % 256) as u8,
            (self.offset_lower / 256) as u8,
            (self.selector % 256) as u8,
            (self.selector / 256) as u8,
            self.zero,
            self.type_attr,
            (self.offset_upper % 256) as u8,
            (self.offset_upper / 256) as u8,
        ];
        assert(r@ =~= entry_bytes(*self));
        r
    }

    /// The entry held in the eight bytes `b` (see `entry_of_bytes`).
    pub fn from_bytes(b: &[u8]) -> (r: IDTEntry)
        requires
            b@.len() == 8,
        ensures
            r == entry_of_bytes(b@),
    {
        IDTEntry {
            offset_lower: b[0] as u16 + 256 * (b[1] as u16),
            selector: b[2] as u16 + 256 * (b[3] as u16),
            zero: b[4],
            type_attr: b[5],
            offset_upper: b[6] as u16 + 256 * (b[7] as u16),
        }
    }

    /// The entry for the handler that does nothing, at address `no_op_handler`.
    pub fn no_op(no_op_handler: u32) -> (r: IDTEntry)
        ensures
            r == entry_for(no_op_handler),
    {
        IDTEntry::new(no_op_handler)
    }
}

/// Reading an entry's bytes back gives the entry.
pub proof fn lemma_entry_bytes_roundtrip(e: IDTEntry)
    ensures
        entry_of_bytes(entry_bytes(e)) == e,
{
}

/// Reading a table's bytes back entry by entry gives the table.
pub proof fn lemma_table_bytes_roundtrip(t: Seq<IDTEntry>)
    ensures
        Seq::new(t.len(), |i: int| entry_of_bytes(table_bytes(t).subrange(8 * i, 8 * i + 8))) == t,
{
    assert forall|i: int| 0 <= i < t.len() implies #[trigger] entry_of_bytes(table_bytes(t).subrange(8 * i, 8 * i + 8)) == t[i] by {
        let b = table_bytes(t).subrange(8 * i, 8 * i + 8);
        assert forall|k: int| 0 <= k < 8 implies b[k] == entry_bytes(t[i])[k] by {
            assert((8 * i + k) / 8 == i && (8 * i + k) % 8 == k);
        }
        assert(b =~= entry_bytes(t[i]));
        lemma_entry_bytes_roundtrip(t[i]);
    }
    assert(Seq::new(t.len(), |i: int| entry_of_bytes(table_bytes(t).subrange(8 * i, 8 * i + 8))) =~= t);
}

/// A entry gives back the handler's address it was made for.
pub proof fn lemma_entry_address(handler: u32)
    ensures
        entry_for(handler).offset_lower + 65536 * entry_for(handler).offset_upper == handler,
{
}

/// The table of entries.
pub struct IDT {
    table: Vec<IDTEntry>,
}

impl View for IDT {
    type V = Seq<IDTEntry>;

    closed spec fn view(&self) -> Seq<IDTEntry> {
        self.table@
    }
}

impl IDT {
    /// A table always has `IDT_SIZE` entries.
    #[verifier::type_invariant]
    spec fn has_all_entries(self) -> bool {
        self.table@.len() == IDT_SIZE
    }

    /// Every entry points at the handler at `default_handler`.
    pub fn new(default_handler: u32) -> (r: IDT)
        ensures
            r@.len() == IDT_SIZE,
            r@ == Seq::new(IDT_SIZE as nat, |i: int| entry_for(default_handler)),
    {
        let entry = IDTEntry::no_op(default_handler);
        let mut table: Vec<IDTEntry> = Vec::new();
        while table.len() < IDT_SIZE
            invariant
                table@.len() <= IDT_SIZE,
                entry == entry_for(default_handler),
                forall|i: int| 0 <= i < table@.len() ==> table@[i] == entry_for(default_handler),
            decreases IDT_SIZE - table@.len(),
        {
            table.push(entry);
        }
        let r = IDT { table };
        assert(r@ =~= Seq::new(IDT_SIZE as nat, |i: int| entry_for(default_handler)));
        r
    }

    /// Points entry `index` at the handler at `handler`.
    pub fn add_entry(&mut self, index: u32, handler: u32)
        requires
            index < IDT_SIZE,
        ensures
            final(self)@ == old(self)@.update(index as int, entry_for(handler)),
            final(self)@.len() == IDT_SIZE,
    {
        proof {
            use_type_invariant(&*self);
        }
        let e = IDTEntry::new(handler);
        let mut table: Vec<IDTEntry> = Vec::new();
        let mut i: usize = 0;
        while i < IDT_SIZE
            invariant
                i <= IDT_SIZE,
                self.table@.len() == IDT_SIZE,
                index < IDT_SIZE,
                e == entry_for(handler),
                table@ == self.table@.update(index as int, e).subrange(0, i as int),
            decreases IDT_SIZE - i,
        {
            if i == index as usize {
                table.push(e);
            } else {
                table.push(self.table[i]);
            }
            i = i + 1;
            assert(table@ =~= self.table@.update(index as int, e).subrange(0, i as int));
        }
        assert(table@ =~= self.table@.update(index as int, e));
        *self = IDT { table };
    }

    /// Entry `index`.
    pub fn entry(&self, index: usize) -> (r: IDTEntry)
        requires
            index < IDT_SIZE,
        ensures
            r == self@[index as int],
    {
        proof {
            use_type_invariant(self);
        }
        self.table[index]
    }

    /// The number of entries: always `IDT_SIZE`.
    pub fn len(&self) -> (r: usize)
        ensures
            r == self@.len(),
            r == IDT_SIZE,
    {
        proof {
            use_type_invariant(self);
        }
        self.table.len()
    }

    /// The table's bytes as the processor reads them, entry after entry.
    pub fn to_bytes(&self) -> (r: Vec<u8>)
        ensures
            r@ == table_bytes(self@),
            r@.len() == 8 * IDT_SIZE,
    {
        proof {
            use_type_invariant(self);
        }
        let mut r: Vec<u8> = Vec::new();
        let mut i: usize = 0;
        while i < IDT_SIZE
            invariant
                i <= IDT_SIZE,
                self.table@.len() == IDT_SIZE,
                r@ =~= table_bytes(self.table@.subrange(0, i as int)),
            decreases IDT_SIZE - i,
        {
            let b = self.table[i].to_bytes();
            let mut k: usize = 0;
            while k < 8
                invariant
                    k <= 8,
                    i < IDT_SIZE,
                    self.table@.len() == IDT_SIZE,
                    b@ == entry_bytes(self.table@[i as int]),
                    r@.len() == 8 * i + k,
                    forall|j: int| 0 <= j < 8 * i ==> r@[j] == #[trigger] table_bytes(self.table@.subrange(0, i as int))[j],
                    forall|j: int| 0 <= j < k ==> r@[8 * i + j] == b@[j],
                decreases 8 - k,
            {
                r.push(b[k]);
                k = k + 1;
            }
            proof {
                let t = self.table@.subrange(0, i + 1);
                assert forall|j: int| 0 <= j < 8 * (i + 1) implies r@[j] == #[trigger] table_bytes(t)[j] by {
                    if j < 8 * i {
                        assert(table_bytes(self.table@.subrange(0, i as int))[j] == entry_bytes(self.table@[j / 8])[j % 8]);
                    } else {
                        assert(j / 8 == i && j % 8 == j - 8 * i);
                    }
                }
            }
            i = i + 1;
        }
        assert(self.table@.subrange(0, IDT_SIZE as int) =~= self.table@);
        r
    }

    /// The table held in the bytes `bytes`, eight for each entry in turn
    /// (see `entry_of_bytes`).
    pub fn from_bytes(bytes: &Vec<u8>) -> (r: IDT)
        requires
            bytes@.len() == 8 * IDT_SIZE,
        ensures
            r@ == Seq::new(IDT_SIZE as nat, |i: int| entry_of_bytes(bytes@.subrange(8 * i, 8 * i + 8))),
    {
        let mut table: Vec<IDTEntry> = Vec::new();
        let mut i: usize = 0;
        while i < IDT_SIZE
            invariant
                i <= IDT_SIZE,
                bytes@.len() == 8 * IDT_SIZE,
                table@ =~= Seq::new(i as nat, |k: int| entry_of_bytes(bytes@.subrange(8 * k, 8 * k + 8))),
            decreases IDT_SIZE - i,
        {
            let e = IDTEntry::from_bytes(&bytes.as_slice()[8 * i..8 * i + 8]);
            table.push(e);
            i = i + 1;
        }
        IDT { table }
    }

    /// The table-register value for this table when it lies at `base`:
    /// eight bytes per entry.
    pub fn layout(&self, base: u32) -> (r: IDTLayout)
        ensures
            r == (IDTLayout { limit: (IDT_SIZE * 8) as u16, base }),
            r.limit == 2048,
    {
        proof {
            use_type_invariant(self);
        }
        IDTLayout { limit: (self.table.len() * 8) as u16, base }
    }
}

} // verus!
