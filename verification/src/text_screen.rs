//! A text terminal that writes straight into screen memory: each byte gives
//! the address of a 16-bit cell and the value to store there.
//!
//! Its cursor moves two columns at a time along a row; on the last row it
//! goes to the start of the row below, and from the last cell to the top
//! left. Addresses are 32-bit and wrap around as the machine's do. Storing
//! the cells is left to the caller.
use vstd::prelude::*;
use vstd::wrapping::u32_specs::{wrapping_add, wrapping_sub, wrapping_mul};
use vstd::string::StringSliceAdditionalSpecFns;
use crate::vga::{Color, make_color, make_vgaentry, vga_entry, color_code, color_to_u8};
use crate::terminal::{itoc, hex_digit, nibble, lemma_nibbles};

verus! {

/// The terminal's screen memory address, size, and cursor.
pub struct TextState {
    pub start: u32,
    pub max_x: u32,
    pub max_y: u32,
    pub x: u32,
    pub y: u32,
}

/// The cursor after showing a byte: from the last cell to the top left;
/// on the last row to the start of the row below; otherwise two columns on.
pub open spec fn advance(s: TextState) -> TextState {
    if s.x == wrapping_sub(s.max_x, 1) && s.y == wrapping_sub(s.max_y, 1) {
        TextState { x: 0, y: 0, ..s }
    } else if s.y == wrapping_sub(s.max_y, 1) {
        TextState { x: 0, y: wrapping_add(s.y, 1), ..s }
    } else {
        TextState { x: wrapping_add(s.x, 2), ..s }
    }
}

/// The address of the cell under the cursor: the row times the width plus
/// the column, from the start.
pub open spec fn cursor_address(s: TextState) -> u32 {
    wrapping_add(wrapping_add(s.start, wrapping_mul(s.y, s.max_x)), s.x)
}

/// Writing byte `c`: a newline moves the cursor to the start of the next
/// row and stores nothing; any other byte moves the cursor on (see
/// `advance`) and is stored, white on black, at the new cursor.
pub open spec fn text_put_char(s: TextState, c: u8) -> (TextState, Option<(u32, u16)>) {
    if c == 10 {
        (TextState { x: 0, y: wrapping_add(s.y, 1), ..s }, None)
    } else {
        let t = advance(s);
        (t, Some((cursor_address(t), vga_entry(c, Color::White, Color::Black))))
    }
}

/// Writing the bytes `bytes` in order: the final state, and the stores.
pub open spec fn text_put_chars(s: TextState, bytes: Seq<u8>) -> (TextState, Seq<(u32, u16)>)
    decreases bytes.len(),
{
    if bytes.len() == 0 {
        (s, Seq::empty())
    } else {
        let (t, stores) = text_put_chars(s, bytes.drop_last());
        let (u, store) = text_put_char(t, bytes.last());
        (u, match store {
            Some(w) => stores.push(w),
            None => stores,
        })
    }
}

/// The digits `put_int` writes for `w`: each byte from the lowest, high
/// digit first.
pub open spec fn word_digits_by_byte(w: u32) -> Seq<u8> {
    seq![
        hex_digit(nibble(w, 1)), hex_digit(nibble(w, 0)), hex_digit(nibble(w, 3)),
        hex_digit(nibble(w, 2)), hex_digit(nibble(w, 5)), hex_digit(nibble(w, 4)),
        hex_digit(nibble(w, 7)), hex_digit(nibble(w, 6)),
    ]
}

/// The hexadecimal digits of a word, each byte from the lowest, high digit
/// first.
pub fn wtoc(i: u32) -> (r: (u8, u8, u8, u8, u8, u8, u8, u8))
    ensures
        seq![r.0, r.1, r.2, r.3, r.4, r.5, r.6, r.7] == word_digits_by_byte(i),
{
    proof {
        lemma_nibbles(i);
    }
    let (a, b) = itoc((i & 0xff) as u8);
    let (c, d) = itoc(((i & 0xff00) >> 8) as u8);
    let (e, f) = itoc(((i & 0xff0000) >> 16) as u8);
    let (g, h) = itoc(((i & 0xff000000) >> 24) as u8);
    (a, b, c, d, e, f, g, h)
}

struct Point {
    x: u32,
    y: u32,
}

/// The terminal: screen memory at `start`, `max.x` by `max.y` cells.
pub struct Terminal {
    start: u32,
    max: Point,
    current: Point,
}

impl View for Terminal {
    type V = TextState;

    closed spec fn view(&self) -> TextState {
        TextState { start: self.start, max_x: self.max.x, max_y: self.max.y, x: self.current.x, y: self.current.y }
    }
}

impl Terminal {
    /// A terminal on the `x` by `y` screen at `start`, cursor at the top left.
    pub fn new(start: u32, x: u32, y: u32) -> (r: Terminal)
        ensures
            r@ == (TextState { start, max_x: x, max_y: y, x: 0, y: 0 }),
    {
        Terminal { start, max: Point { x, y }, current: Point { x: 0, y: 0 } }
    }

    /// Writes byte `c`; returns the cell store to make, if any (see
    /// `text_put_char`).
    pub fn put_char(&mut self, c: u8) -> (r: Option<(u32, u16)>)
        ensures
            (final(self)@, r) == text_put_char(old(self)@, c),
    {
        if c == 10 {
            self.current = Point { x: 0, y: self.current.y.wrapping_add(1) };
            None
        } else {
            let last_x = self.max.x.wrapping_sub(1);
            let last_y = self.max.y.wrapping_sub(1);
            self.current = if self.current.x == last_x && self.current.y == last_y {
                Point { x: 0, y: 0 }
            } else if self.current.y == last_y {
                Point { x: 0, y: self.current.y.wrapping_add(1) }
            } else {
                Point { x: self.current.x.wrapping_add(2), y: self.current.y }
            };
            let entry = make_vgaentry(c, make_color(Color::White, Color::Black));
            let address = self.start.wrapping_add(self.current.y.wrapping_mul(self.max.x)).wrapping_add(
                self.current.x,
            );
            Some((address, entry))
        }
    }

    /// Writes the bytes of `bytes`; returns the cell stores to make, in order.
    fn put_bytes(&mut self, bytes: &[u8]) -> (r: Vec<(u32, u16)>)
        ensures
            (final(self)@, r@) == text_put_chars(old(self)@, bytes@),
    {
        let mut stores: Vec<(u32, u16)> = Vec::new();
        let mut i: usize = 0;
        while i < bytes.len()
            invariant
                i <= bytes@.len(),
                (self@, stores@) == text_put_chars(old(self)@, bytes@.subrange(0, i as int)),
            decreases bytes@.len() - i,
        {
            assert(bytes@.subrange(0, i + 1).drop_last() =~= bytes@.subrange(0, i as int));
            let store = self.put_char(bytes[i]);
            match store {
                Some(w) => stores.push(w),
                None => {},
            }
            i = i + 1;
        }
        assert(bytes@.subrange(0, bytes@.len() as int) =~= bytes@);
        stores
    }

    /// Writes `0x` and the two hexadecimal digits of `c`; returns the stores.
    pub fn put_hex(&mut self, c: u8) -> (r: Vec<(u32, u16)>)
        ensures
            (final(self)@, r@) == text_put_chars(old(self)@, seq![48u8, 120u8, hex_digit(c / 16), hex_digit(c % 16)]),
    {
        let (upper, lower) = itoc(c);
        let v: Vec<u8> = vec![48u8, 120u8, upper, lower];
        assert(v@ =~= seq![48u8, 120u8, hex_digit(c / 16), hex_digit(c % 16)]);
        self.put_bytes(v.as_slice())
    }

    /// Writes `0x` and the hexadecimal digits of `w`, each byte from the
    /// lowest, high digit first; returns the stores.
    pub fn put_int(&mut self, w: u32) -> (r: Vec<(u32, u16)>)
        ensures
            (final(self)@, r@) == text_put_chars(old(self)@, seq![48u8, 120u8] + word_digits_by_byte(w)),
    {
        let (a, b, c, d, e, f, g, h) = wtoc(w);
        let v: Vec<u8> = vec![48u8, 120u8, a, b, c, d, e, f, g, h];
        assert(v@ =~= seq![48u8, 120u8] + word_digits_by_byte(w));
        self.put_bytes(v.as_slice())
    }

    /// Writes the bytes of `s`; returns the stores.
    pub fn print(&mut self, s: &str) -> (r: Vec<(u32, u16)>)
        ensures
            (final(self)@, r@) == text_put_chars(old(self)@, s.spec_bytes()),
    {
        self.put_bytes(s.as_bytes())
    }

    /// Writes the bytes of `s` and a newline; returns the stores.
    pub fn println(&mut self, s: &str) -> (r: Vec<(u32, u16)>)
        ensures
            (final(self)@, r@) == text_put_chars(old(self)@, s.spec_bytes().push(10)),
    {
        let r = self.print(s);
        self.put_char(10);
        assert(s.spec_bytes().push(10).drop_last() =~= s.spec_bytes());
        r
    }
}

/// Number of cells the screen-clearing pass covers.
pub const SCREEN_CELLS: usize = 80 * 25;

/// The stores that clear the screen at 0xb8000 to background colour
/// `background`: every one of `SCREEN_CELLS` cells, two bytes apart, gets
/// the colour in its top four bits and nothing else.
pub fn clear_screen(background: Color) -> (r: Vec<(u32, u16)>)
    ensures
        r@ == Seq::new(SCREEN_CELLS as nat, |i: int| ((0xb8000 + 2 * i) as u32, (color_code(background) * 4096) as u16)),
{
    let b: u16 = color_to_u8(background) as u16;
    assert(b << 12u16 == b * 4096) by (bit_vector)
        requires
            b < 16,
    ;
    let value: u16 = b << 12;
    let mut stores: Vec<(u32, u16)> = Vec::new();
    let mut i: usize = 0;
    while i < SCREEN_CELLS
        invariant
            i <= SCREEN_CELLS,
            value == color_code(background) * 4096,
            stores@ == Seq::new(i as nat, |k: int| ((0xb8000 + 2 * k) as u32, (color_code(background) * 4096) as u16)),
        decreases SCREEN_CELLS - i,
    {
        stores.push(((0xb8000 + i * 2) as u32, value));
        i = i + 1;
        assert(stores@ =~= Seq::new(i as nat, |k: int| ((0xb8000 + 2 * k) as u32, (color_code(background) * 4096) as u16)));
    }
    stores
}

} // verus!
