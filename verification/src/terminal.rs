//! A text terminal on the VGA screen: a cursor that advances as characters
//! are written, wraps at the end of a line and scrolls the screen up when it
//! runs past the last row; and hexadecimal output of bytes and words.
use vstd::prelude::*;
use crate::vga::{
    Color, VGA, VGA_START, X_MAX, Y_MAX, vga_entry, decode_entry, lemma_entry_roundtrip,
    lemma_decode_vga_entry,
};

verus! {

/// What a terminal shows: the screen's cells row by row, and the cursor.
pub struct Screen {
    pub cells: Seq<u16>,
    pub x: int,
    pub y: int,
}

/// The row-major position of column `x`, row `y`.
pub open spec fn cell_index(x: int, y: int) -> int {
    X_MAX * y + x
}

/// The screen holds every cell and the cursor lies on it.
pub open spec fn screen_wf(s: Screen) -> bool {
    &&& s.cells.len() == X_MAX * Y_MAX
    &&& 0 <= s.x < X_MAX
    &&& 0 <= s.y < Y_MAX
}

/// The cells after every row moves up by one and the last row is filled
/// with `fill`.
pub open spec fn scrolled(cells: Seq<u16>, fill: u16) -> Seq<u16> {
    Seq::new(cells.len(), |k: int| if k < X_MAX * (Y_MAX - 1) { cells[k + X_MAX] } else { fill })
}

/// The cell that fills the new last row when the terminal scrolls.
pub open spec fn scroll_fill() -> u16 {
    vga_entry(97, Color::Black, Color::Black)
}

/// The colours of written text: white on black.
pub open spec fn text_entry(c: u8) -> u16 {
    vga_entry(c, Color::White, Color::Black)
}

/// The screen after writing byte `c`: a newline moves the cursor to the
/// start of the next row (and then one column on, as any byte does);
/// any other byte is shown at the cursor, which then advances. A cursor
/// past the last column wraps to the next row; a cursor past the last row
/// scrolls the screen and stays on the last row.
pub open spec fn put_char_spec(s: Screen, c: u8) -> Screen {
    let cells1 = if c == 10 { s.cells } else { s.cells.update(cell_index(s.x, s.y), text_entry(c)) };
    let x1: int = if c == 10 { 0 } else { s.x };
    let y1: int = if c == 10 { s.y + 1 } else { s.y };
    let x2 = x1 + 1;
    let x3: int = if x2 >= X_MAX { 0 } else { x2 };
    let y3: int = if x2 >= X_MAX { y1 + 1 } else { y1 };
    if y3 >= Y_MAX {
        Screen { cells: scrolled(cells1, scroll_fill()), x: x3, y: Y_MAX - 1 }
    } else {
        Screen { cells: cells1, x: x3, y: y3 }
    }
}

/// The screen after writing the bytes `bytes` in order.
pub open spec fn put_chars(s: Screen, bytes: Seq<u8>) -> Screen
    decreases bytes.len(),
{
    if bytes.len() == 0 {
        s
    } else {
        put_char_spec(put_chars(s, bytes.drop_last()), bytes.last())
    }
}

/// The ASCII hexadecimal digit for `n` below 16, and `z` for anything else.
pub open spec fn hex_digit(n: u8) -> u8 {
    if n <= 9 {
        (48 + n) as u8
    } else if n <= 15 {
        (55 + n) as u8
    } else {
        122
    }
}

/// The value of an upper-case ASCII hexadecimal digit.
pub open spec fn digit_value(d: u8) -> int {
    if 48 <= d <= 57 { d - 48 } else { d - 55 }
}

/// 16 to the power `k`, for the nibbles of a 32-bit word.
pub open spec fn pow16(k: nat) -> nat
    decreases k,
{
    if k == 0 { 1 } else { 16 * pow16((k - 1) as nat) }
}

/// Nibble `k` (0 is the lowest) of `w`.
pub open spec fn nibble(w: u32, k: nat) -> u8 {
    ((w as nat / pow16(k)) % 16) as u8
}

/// The eight hexadecimal digits of `w`, most significant first.
pub open spec fn word_digits(w: u32) -> Seq<u8> {
    seq![
        hex_digit(nibble(w, 7)), hex_digit(nibble(w, 6)), hex_digit(nibble(w, 5)),
        hex_digit(nibble(w, 4)), hex_digit(nibble(w, 3)), hex_digit(nibble(w, 2)),
        hex_digit(nibble(w, 1)), hex_digit(nibble(w, 0)),
    ]
}

/// The value of a string of hexadecimal digits, most significant first.
pub open spec fn hex_value(ds: Seq<u8>) -> int
    decreases ds.len(),
{
    if ds.len() == 0 { 0 } else { 16 * hex_value(ds.drop_last()) + digit_value(ds.last()) }
}

/// The bytes written for a character string: each character cut to its low byte.
pub open spec fn str_bytes(cs: Seq<char>) -> Seq<u8> {
    Seq::new(cs.len(), |i: int| cs[i] as u8)
}

/// The hexadecimal digit for `i`: `0`-`9`, `A`-`F`, or `z` above 15.
pub fn hex(i: u8) -> (r: u8)
    ensures
        r == hex_digit(i),
{
    if i <= 9 {
        0x30 + i
    } else if i <= 0xF {
        0x41 + (i - 0xA)
    } else {
        122
    }
}

/// The two hexadecimal digits of a byte, high one first.
pub fn itoc(i: u8) -> (r: (u8, u8))
    ensures
        r == (hex_digit(i / 16), hex_digit(i % 16)),
{
    assert((0xfu8 & i) == i % 16 && (0xf0u8 & i) >> 4u8 == i / 16) by (bit_vector);
    let lower = hex(0xf & i);
    let upper = hex((0xf0 & i) >> 4);
    (upper, lower)
}

/// The eight hexadecimal digits of a word, most significant first.
pub fn wtoc(i: u32) -> (r: (u8, u8, u8, u8, u8, u8, u8, u8))
    ensures
        seq![r.0, r.1, r.2, r.3, r.4, r.5, r.6, r.7] == word_digits(i),
{
    proof {
        lemma_nibbles(i);
    }
    let (a, b) = itoc((i & 0xff) as u8);
    let (c, d) = itoc(((i & 0xff00) >> 8) as u8);
    let (e, f) = itoc(((i & 0xff0000) >> 16) as u8);
    let (g, h) = itoc(((i & 0xff000000) >> 24) as u8);
    (g, h, e, f, c, d, a, b)
}

/// The nibbles of a word, as the byte masks and shifts compute them.
pub proof fn lemma_nibbles(i: u32)
    ensures
        ((i & 0xff) as u8) / 16 == nibble(i, 1),
        ((i & 0xff) as u8) % 16 == nibble(i, 0),
        (((i & 0xff00) >> 8) as u8) / 16 == nibble(i, 3),
        (((i & 0xff00) >> 8) as u8) % 16 == nibble(i, 2),
        (((i & 0xff0000) >> 16) as u8) / 16 == nibble(i, 5),
        (((i & 0xff0000) >> 16) as u8) % 16 == nibble(i, 4),
        (((i & 0xff000000) >> 24) as u8) / 16 == nibble(i, 7),
        (((i & 0xff000000) >> 24) as u8) % 16 == nibble(i, 6),
{
    reveal_with_fuel(pow16, 9);
    assert(pow16(0) == 1);
    assert(pow16(1) == 16);
    assert(pow16(2) == 0x100);
    assert(pow16(3) == 0x1000);
    assert(pow16(4) == 0x10000);
    assert(pow16(5) == 0x100000);
    assert(pow16(6) == 0x1000000);
    assert(pow16(7) == 0x10000000);
    assert({
        &&& ((i & 0xff) as u8) / 16 == (i / 16) % 16
        &&& ((i & 0xff) as u8) % 16 == i % 16
        &&& (((i & 0xff00) >> 8) as u8) / 16 == (i / 0x1000) % 16
        &&& (((i & 0xff00) >> 8) as u8) % 16 == (i / 0x100) % 16
        &&& (((i & 0xff0000) >> 16) as u8) / 16 == (i / 0x100000) % 16
        &&& (((i & 0xff0000) >> 16) as u8) % 16 == (i / 0x10000) % 16
        &&& (((i & 0xff000000) >> 24) as u8) / 16 == (i / 0x10000000) % 16
        &&& (((i & 0xff000000) >> 24) as u8) % 16 == (i / 0x1000000) % 16
    }) by (bit_vector);
}

/// Writing one more byte after a run of bytes is writing the longer run.
pub proof fn lemma_put_chars_push(s: Screen, bytes: Seq<u8>, c: u8)
    ensures
        put_chars(s, bytes.push(c)) == put_char_spec(put_chars(s, bytes), c),
{
    assert(bytes.push(c).drop_last() =~= bytes);
}

/// Writing a byte keeps the cursor on the screen.
pub proof fn lemma_put_char_wf(s: Screen, c: u8)
    requires
        screen_wf(s),
    ensures
        screen_wf(put_char_spec(s, c)),
{
}

/// Writing any bytes keeps the cursor on the screen.
pub proof fn lemma_put_chars_wf(s: Screen, bytes: Seq<u8>)
    requires
        screen_wf(s),
    ensures
        screen_wf(put_chars(s, bytes)),
    decreases bytes.len(),
{
    if bytes.len() > 0 {
        lemma_put_chars_wf(s, bytes.drop_last());
    }
}

/// Each hexadecimal digit reads back as the nibble it was made from.
pub proof fn lemma_hex_digit_value(n: u8)
    requires
        n < 16,
    ensures
        digit_value(hex_digit(n)) == n,
{
}

/// The eight digits that `put_int` writes for a word read back as that word.
pub proof fn lemma_word_digits_value(w: u32)
    ensures
        hex_value(word_digits(w)) == w,
{
    reveal_with_fuel(pow16, 9);
    reveal_with_fuel(hex_value, 9);
    let ds = word_digits(w);
    lemma_hex_digit_value(nibble(w, 0));
    lemma_hex_digit_value(nibble(w, 1));
    lemma_hex_digit_value(nibble(w, 2));
    lemma_hex_digit_value(nibble(w, 3));
    lemma_hex_digit_value(nibble(w, 4));
    lemma_hex_digit_value(nibble(w, 5));
    lemma_hex_digit_value(nibble(w, 6));
    lemma_hex_digit_value(nibble(w, 7));
    assert(ds.drop_last().drop_last().drop_last().drop_last().drop_last().drop_last().drop_last().drop_last() =~= Seq::<u8>::empty());
    assert(w == w % 16 + 0x10 * ((w / 0x10) % 16) + 0x100 * ((w / 0x100) % 16)
        + 0x1000 * ((w / 0x1000) % 16) + 0x10000 * ((w / 0x10000) % 16)
        + 0x100000 * ((w / 0x100000) % 16) + 0x1000000 * ((w / 0x1000000) % 16)
        + 0x10000000 * ((w / 0x10000000) % 16)) by (bit_vector);
    assert(pow16(0) == 1);
    assert(pow16(1) == 0x10);
    assert(pow16(2) == 0x100);
    assert(pow16(3) == 0x1000);
    assert(pow16(4) == 0x10000);
    assert(pow16(5) == 0x100000);
    assert(pow16(6) == 0x1000000);
    assert(pow16(7) == 0x10000000);
    let n0 = w % 16;
    let n1 = (w / 0x10) % 16;
    let n2 = (w / 0x100) % 16;
    let n3 = (w / 0x1000) % 16;
    let n4 = (w / 0x10000) % 16;
    let n5 = (w / 0x100000) % 16;
    let n6 = (w / 0x1000000) % 16;
    let n7 = (w / 0x10000000) % 16;
    vstd::arithmetic::div_mod::lemma_div_basics(w as int);
    assert(nibble(w, 0) == n0);
    assert(nibble(w, 1) == n1);
    assert(nibble(w, 2) == n2);
    assert(nibble(w, 3) == n3);
    assert(nibble(w, 4) == n4);
    assert(nibble(w, 5) == n5);
    assert(nibble(w, 6) == n6);
    assert(nibble(w, 7) == n7);
}

/// The two digits that `put_hex` writes for a byte read back as that byte.
pub proof fn lemma_byte_digits_value(c: u8)
    ensures
        hex_value(seq![hex_digit(c / 16), hex_digit(c % 16)]) == c,
{
    reveal_with_fuel(hex_value, 3);
    lemma_hex_digit_value(c / 16);
    lemma_hex_digit_value(c % 16);
    assert(seq![hex_digit(c / 16), hex_digit(c % 16)].drop_last().drop_last() =~= Seq::<u8>::empty());
}

/// A byte other than a newline shows, white on black, where the cursor
/// was (one row higher if the screen scrolled), and the cursor moves one
/// cell on, wrapping at the end of a row and staying on the last row.
pub proof fn lemma_put_char_shows_byte(s: Screen, c: u8)
    requires
        screen_wf(s),
        c != 10,
    ensures
        ({
            let t = put_char_spec(s, c);
            &&& s.x + 1 < X_MAX ==> t.x == s.x + 1 && t.y == s.y
                && t.cells[cell_index(s.x, s.y)] == text_entry(c)
            &&& s.x + 1 == X_MAX && s.y + 1 < Y_MAX ==> t.x == 0 && t.y == s.y + 1
                && t.cells[cell_index(s.x, s.y)] == text_entry(c)
            &&& s.x + 1 == X_MAX && s.y + 1 == Y_MAX ==> t.x == 0 && t.y == Y_MAX - 1
                && t.cells[cell_index(s.x, s.y - 1)] == text_entry(c)
            &&& decode_entry(text_entry(c)) == (c, Color::White, Color::Black)
        }),
{
    lemma_decode_vga_entry(c, Color::White, Color::Black);
}

/// A newline writes nothing and moves the cursor to the second column of
/// the next row, scrolling the screen when the cursor was on the last row.
pub proof fn lemma_put_char_newline(s: Screen)
    requires
        screen_wf(s),
    ensures
        ({
            let t = put_char_spec(s, 10);
            &&& t.x == 1
            &&& s.y + 1 < Y_MAX ==> t.y == s.y + 1 && t.cells == s.cells
            &&& s.y + 1 == Y_MAX ==> t.y == Y_MAX - 1 && t.cells == scrolled(s.cells, scroll_fill())
        }),
{
}

/// Scrolling moves each row up by one and fills the last row.
pub proof fn lemma_scrolled_rows(cells: Seq<u16>, fill: u16, x: int, y: int)
    requires
        cells.len() == X_MAX * Y_MAX,
        0 <= x < X_MAX,
        0 <= y < Y_MAX,
    ensures
        y + 1 < Y_MAX ==> scrolled(cells, fill)[cell_index(x, y)] == cells[cell_index(x, y + 1)],
        y + 1 == Y_MAX ==> scrolled(cells, fill)[cell_index(x, y)] == fill,
        scrolled(cells, fill).len() == cells.len(),
{
}

struct Point {
    x: usize,
    y: usize,
}

/// A terminal writing white-on-black text to a VGA screen.
pub struct Terminal {
    current: Point,
    vga: VGA,
}

impl View for Terminal {
    type V = Screen;

    closed spec fn view(&self) -> Screen {
        Screen { cells: self.vga.cells(), x: self.current.x as int, y: self.current.y as int }
    }
}

impl Terminal {
    /// The screen is well formed and the cursor lies on it.
    pub closed spec fn wf(&self) -> bool {
        &&& self.vga.wf()
        &&& self.vga.cols() == X_MAX
        &&& self.vga.rows() == Y_MAX
        &&& self.current.x < X_MAX
        &&& self.current.y < Y_MAX
    }

    /// A well-formed terminal has a well-formed screen.
    pub proof fn lemma_wf(&self)
        requires
            self.wf(),
        ensures
            screen_wf(self@),
            self.address() == VGA_START,
    {
        self.vga.lemma_wf();
    }

    /// Where the screen memory lies.
    pub closed spec fn address(&self) -> u32 {
        self.vga.address()
    }

    /// Where the screen memory lies: always at `VGA_START`.
    pub fn screen_address(&self) -> (r: u32)
        requires
            self.wf(),
        ensures
            r == self.address(),
            r == VGA_START,
    {
        proof {
            self.vga.lemma_wf();
        }
        self.vga.mapped()
    }

    /// The address in screen memory of the cell at `point`, or `None` off
    /// the screen.
    pub fn cell_address(&self, point: (usize, usize)) -> (r: Option<u32>)
        requires
            self.wf(),
        ensures
            r == (if point.0 < X_MAX && point.1 < Y_MAX {
                Some((VGA_START + 2 * cell_index(point.0 as int, point.1 as int)) as u32)
            } else {
                None
            }),
    {
        proof {
            self.vga.lemma_wf();
        }
        self.vga.cell_address(point)
    }

    /// A terminal on a fresh screen.
    pub fn init() -> (r: Terminal)
        ensures
            r.wf(),
            r.address() == VGA_START,
            r@ == (Screen { cells: Seq::new((X_MAX * Y_MAX) as nat, |k: int| 0u16), x: 0, y: 0 }),
    {
        Terminal::new(VGA::new())
    }

    /// A terminal on `vga` with the cursor at the top left.
    pub fn new(vga: VGA) -> (r: Terminal)
        requires
            vga.wf(),
        ensures
            r.wf(),
            r.address() == vga.address(),
            r@ == (Screen { cells: vga.cells(), x: 0, y: 0 }),
    {
        proof {
            vga.lemma_wf();
        }
        Terminal { vga, current: Point { x: 0, y: 0 } }
    }

    /// Writes one byte (see `put_char_spec`).
    pub fn put_char(&mut self, c: u8)
        requires
            old(self).wf(),
        ensures
            final(self).wf(),
            final(self)@ == put_char_spec(old(self)@, c),
    {
        proof {
            self.vga.lemma_wf();
        }
        if c == 10 {
            self.current = Point { x: 0, y: self.current.y + 1 };
        } else {
            self.vga.put((self.current.x, self.current.y), c, Color::White, Color::Black);
        }
        self.current.x = self.current.x + 1;
        if self.current.x >= self.vga.x_max() {
            self.current.x = 0;
            self.current.y = self.current.y + 1;
        }
        if self.current.y >= self.vga.y_max() {
            self.scroll();
            self.current.y = self.vga.y_max() - 1;
        }
    }

    /// Moves every row up by one and fills the last row with `a` in black
    /// on black.
    fn scroll(&mut self)
        requires
            old(self).vga.wf(),
            old(self).vga.cols() == X_MAX,
            old(self).vga.rows() == Y_MAX,
        ensures
            final(self).vga.wf(),
            final(self).vga.cols() == X_MAX,
            final(self).vga.rows() == Y_MAX,
            final(self).current == old(self).current,
            final(self).vga.cells() == scrolled(old(self).vga.cells(), scroll_fill()),
    {
        scroll_screen(&mut self.vga, 97, Color::Black, Color::Black);
    }

    /// Blanks every cell (character 0, black on black); the cursor stays.
    pub fn clear_screen(&mut self)
        requires
            old(self).wf(),
        ensures
            final(self).wf(),
            final(self)@ == (Screen {
                cells: Seq::new((X_MAX * Y_MAX) as nat, |k: int| 0u16),
                x: old(self)@.x,
                y: old(self)@.y,
            }),
    {
        clear_vga(&mut self.vga);
    }

    /// Writes the bytes of `buf` in order.
    pub fn write(&mut self, buf: &[u8])
        requires
            old(self).wf(),
        ensures
            final(self).wf(),
            final(self)@ == put_chars(old(self)@, buf@),
    {
        let mut i: usize = 0;
        while i < buf.len()
            invariant
                self.wf(),
                i <= buf@.len(),
                self@ == put_chars(old(self)@, buf@.subrange(0, i as int)),
            decreases buf@.len() - i,
        {
            proof {
                lemma_put_chars_push(old(self)@, buf@.subrange(0, i as int), buf@[i as int]);
                assert(buf@.subrange(0, i as int).push(buf@[i as int]) =~= buf@.subrange(0, i + 1));
            }
            self.put_char(buf[i]);
            i = i + 1;
        }
        assert(buf@.subrange(0, buf@.len() as int) =~= buf@);
    }

    /// Writes `0x` and the two hexadecimal digits of `c`.
    pub fn put_hex(&mut self, c: u8)
        requires
            old(self).wf(),
        ensures
            final(self).wf(),
            final(self)@ == put_chars(old(self)@, seq![48u8, 120u8, hex_digit(c / 16), hex_digit(c % 16)]),
    {
        let (upper, lower) = itoc(c);
        let v: Vec<u8> = vec![48u8, 120u8, upper, lower];
        assert(v@ =~= seq![48u8, 120u8, hex_digit(c / 16), hex_digit(c % 16)]);
        self.write(v.as_slice());
    }

    /// Writes `0x` and the eight hexadecimal digits of `w`, most
    /// significant first.
    pub fn put_int(&mut self, w: u32)
        requires
            old(self).wf(),
        ensures
            final(self).wf(),
            final(self)@ == put_chars(old(self)@, seq![48u8, 120u8] + word_digits(w)),
    {
        let (a, b, c, d, e, f, g, h) = wtoc(w);
        let v: Vec<u8> = vec![48u8, 120u8, a, b, c, d, e, f, g, h];
        assert(v@ =~= seq![48u8, 120u8] + word_digits(w));
        self.write(v.as_slice());
    }

    /// Writes the characters of `s`, each cut to its low byte.
    pub fn print(&mut self, s: &str)
        requires
            old(self).wf(),
        ensures
            final(self).wf(),
            final(self)@ == put_chars(old(self)@, str_bytes(s@)),
    {
        let n = s.unicode_len();
        let mut i: usize = 0;
        while i < n
            invariant
                self.wf(),
                n == s@.len(),
                i <= n,
                self@ == put_chars(old(self)@, str_bytes(s@.subrange(0, i as int))),
            decreases n - i,
        {
            let c = s.get_char(i);
            proof {
                lemma_put_chars_push(old(self)@, str_bytes(s@.subrange(0, i as int)), c as u8);
                assert(str_bytes(s@.subrange(0, i as int)).push(c as u8) =~= str_bytes(
                    s@.subrange(0, i + 1),
                ));
            }
            self.put_char(c as u8);
            i = i + 1;
        }
        assert(s@.subrange(0, n as int) =~= s@);
    }

    /// Writes the characters of `s` and a newline.
    pub fn println(&mut self, s: &str)
        requires
            old(self).wf(),
        ensures
            final(self).wf(),
            final(self)@ == put_char_spec(put_chars(old(self)@, str_bytes(s@)), 10),
    {
        self.print(s);
        self.put_char(10);
    }

    /// The cursor: column and row.
    pub fn cursor(&self) -> (r: (usize, usize))
        ensures
            r.0 == self@.x,
            r.1 == self@.y,
    {
        (self.current.x, self.current.y)
    }

    /// What the screen shows at `point`, or `None` off the screen.
    pub fn get(&mut self, point: (usize, usize)) -> (r: Option<(u8, Color, Color)>)
        requires
            old(self).wf(),
        ensures
            *final(self) == *old(self),
            r == (if point.0 < X_MAX && point.1 < Y_MAX {
                Some(decode_entry(old(self)@.cells[cell_index(point.0 as int, point.1 as int)]))
            } else {
                None
            }),
    {
        self.vga.get(point)
    }
}

/// Moves every row of `vga` up by one and fills the last row with `fill`
/// in colours `fg` on `bg`.
pub(crate) fn scroll_screen(vga: &mut VGA, fill: u8, fg: Color, bg: Color)
    requires
        old(vga).wf(),
        old(vga).cols() == X_MAX,
        old(vga).rows() == Y_MAX,
    ensures
        final(vga).wf(),
        final(vga).cols() == X_MAX,
        final(vga).rows() == Y_MAX,
        final(vga).cells() == scrolled(old(vga).cells(), vga_entry(fill, fg, bg)),
{
    let ghost start = vga.cells();
    proof {
        vga.lemma_wf();
    }
    let mut j: usize = 1;
    while j < vga.y_max()
        invariant
            vga.wf(),
            vga.cols() == X_MAX,
            vga.rows() == Y_MAX,
            start.len() == X_MAX * Y_MAX,
            1 <= j <= Y_MAX,
            vga.cells().len() == start.len(),
            forall|k: int| 0 <= k < X_MAX * (j - 1) ==> #[trigger] vga.cells()[k] == start[k + X_MAX],
            forall|k: int| X_MAX * (j - 1) <= k < start.len() ==> #[trigger] vga.cells()[k] == start[k],
        decreases Y_MAX - j,
    {
        let mut i: usize = 0;
        while i < vga.x_max()
            invariant
                vga.wf(),
                vga.cols() == X_MAX,
                vga.rows() == Y_MAX,
                start.len() == X_MAX * Y_MAX,
                1 <= j < Y_MAX,
                i <= X_MAX,
                vga.cells().len() == start.len(),
                forall|k: int| 0 <= k < X_MAX * (j - 1) + i ==> #[trigger] vga.cells()[k] == start[k + X_MAX],
                forall|k: int| X_MAX * (j - 1) + i <= k < start.len() ==> #[trigger] vga.cells()[k] == start[k],
            decreases X_MAX - i,
        {
            let got = vga.get((i, j));
            proof {
                lemma_entry_roundtrip(start[X_MAX * j + i]);
            }
            if let Some((chr, f, b)) = got {
                vga.put((i, j - 1), chr, f, b);
            }
            i = i + 1;
        }
        j = j + 1;
    }
    let mut i: usize = 0;
    while i < vga.x_max()
        invariant
            vga.wf(),
            vga.cols() == X_MAX,
            vga.rows() == Y_MAX,
            start.len() == X_MAX * Y_MAX,
            i <= X_MAX,
            vga.cells().len() == start.len(),
            forall|k: int| 0 <= k < X_MAX * (Y_MAX - 1) ==> #[trigger] vga.cells()[k] == start[k + X_MAX],
            forall|k: int| X_MAX * (Y_MAX - 1) <= k < X_MAX * (Y_MAX - 1) + i ==> #[trigger] vga.cells()[k] == vga_entry(fill, fg, bg),
        decreases X_MAX - i,
    {
        let y_last = vga.y_max() - 1;
        vga.put((i, y_last), fill, fg, bg);
        i = i + 1;
    }
    assert(vga.cells() =~= scrolled(start, vga_entry(fill, fg, bg)));
}

/// Writes character 0 in black on black to every cell of `vga`.
pub(crate) fn clear_vga(vga: &mut VGA)
    requires
        old(vga).wf(),
        old(vga).cols() == X_MAX,
        old(vga).rows() == Y_MAX,
    ensures
        final(vga).wf(),
        final(vga).cols() == X_MAX,
        final(vga).rows() == Y_MAX,
        final(vga).cells() == Seq::new((X_MAX * Y_MAX) as nat, |k: int| 0u16),
{
    proof {
        vga.lemma_wf();
        lemma_decode_vga_entry(0, Color::Black, Color::Black);
    }
    let ghost blank = vga_entry(0, Color::Black, Color::Black);
    assert(blank == 0);
    let mut i: usize = 0;
    while i < vga.x_max()
        invariant
            vga.wf(),
            vga.cols() == X_MAX,
            vga.rows() == Y_MAX,
            blank == 0,
            i <= X_MAX,
            vga.cells().len() == X_MAX * Y_MAX,
            forall|xx: int, yy: int| 0 <= xx < i && 0 <= yy < Y_MAX ==> #[trigger] vga.cells()[cell_index(xx, yy)] == 0,
        decreases X_MAX - i,
    {
        let mut j: usize = 0;
        while j < vga.y_max()
            invariant
                vga.wf(),
                vga.cols() == X_MAX,
                vga.rows() == Y_MAX,
                blank == 0,
                i < X_MAX,
                j <= Y_MAX,
                vga.cells().len() == X_MAX * Y_MAX,
                forall|xx: int, yy: int| 0 <= xx < i && 0 <= yy < Y_MAX ==> #[trigger] vga.cells()[cell_index(xx, yy)] == 0,
                forall|yy: int| 0 <= yy < j ==> #[trigger] vga.cells()[cell_index(i as int, yy)] == 0,
            decreases Y_MAX - j,
        {
            vga.put((i, j), 0, Color::Black, Color::Black);
            j = j + 1;
        }
        i = i + 1;
    }
    assert forall|k: int| 0 <= k < X_MAX * Y_MAX implies vga.cells()[k] == 0 by {
        let yy = k / (X_MAX as int);
        let xx = k % (X_MAX as int);
        assert(k == cell_index(xx, yy));
        assert(vga.cells()[cell_index(xx, yy)] == 0);
    }
    assert(vga.cells() =~= Seq::new((X_MAX * Y_MAX) as nat, |k: int| 0u16));
}

} // verus!
