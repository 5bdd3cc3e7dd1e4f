//! The VGA text-mode screen: a grid of 16-bit cells, each holding a
//! character in its low byte and a colour attribute in its high byte
//! (foreground in the low nibble, background in the high nibble).
//!
//! The screen memory is modelled by a vector of cells stored row by row.
use vstd::prelude::*;

verus! {

/// The address of the text-mode screen memory.
pub const VGA_START: u32 = 0xb8000;

/// Columns of the text-mode screen.
pub const X_MAX: usize = 80;

/// Rows of the text-mode screen.
pub const Y_MAX: usize = 24;

/// The sixteen text-mode colours.
#[derive(Clone, Copy, Debug, PartialEq, Eq, Structural)]
pub enum Color {
    Black,
    Blue,
    Green,
    Cyan,
    Red,
    Pink,
    Brown,
    LightGray,
    DarkGray,
    LightBlue,
    LightGreen,
    LightCyan,
    LightRed,
    LightPink,
    Yellow,
    White,
}

/// The hardware number of a colour.
pub open spec fn color_code(c: Color) -> u8 {
    match c {
        Color::Black => 0,
        Color::Blue => 1,
        Color::Green => 2,
        Color::Cyan => 3,
        Color::Red => 4,
        Color::Pink => 5,
        Color::Brown => 6,
        Color::LightGray => 7,
        Color::DarkGray => 8,
        Color::LightBlue => 9,
        Color::LightGreen => 10,
        Color::LightCyan => 11,
        Color::LightRed => 12,
        Color::LightPink => 13,
        Color::Yellow => 14,
        Color::White => 15,
    }
}

/// The colour with a given hardware number (below 16).
pub open spec fn color_of(n: u8) -> Color {
    if n == 0 { Color::Black }
    else if n == 1 { Color::Blue }
    else if n == 2 { Color::Green }
    else if n == 3 { Color::Cyan }
    else if n == 4 { Color::Red }
    else if n == 5 { Color::Pink }
    else if n == 6 { Color::Brown }
    else if n == 7 { Color::LightGray }
    else if n == 8 { Color::DarkGray }
    else if n == 9 { Color::LightBlue }
    else if n == 10 { Color::LightGreen }
    else if n == 11 { Color::LightCyan }
    else if n == 12 { Color::LightRed }
    else if n == 13 { Color::LightPink }
    else if n == 14 { Color::Yellow }
    else { Color::White }
}

/// The colours in the order of their hardware numbers.
pub open spec fn colors() -> Seq<Color> {
    seq![
        Color::Black,
        Color::Blue,
        Color::Green,
        Color::Cyan,
        Color::Red,
        Color::Pink,
        Color::Brown,
        Color::LightGray,
        Color::DarkGray,
        Color::LightBlue,
        Color::LightGreen,
        Color::LightCyan,
        Color::LightRed,
        Color::LightPink,
        Color::Yellow,
        Color::White,
    ]
}

/// Colour `n` of the sixteen, in the order Black, Blue, Green, Cyan, Red,
/// Pink, Brown, LightGray, DarkGray, LightBlue, LightGreen, LightCyan,
/// LightRed, LightPink, Yellow, White, has hardware number `n`, and
/// number `n` gives it back.
pub proof fn lemma_color_numbers()
    ensures
        forall|c: Color| colors()[#[trigger] color_code(c) as int] == c,
        forall|c: Color| #[trigger] color_code(c) < 16,
        forall|n: u8| n < 16 ==> #[trigger] color_of(n) == colors()[n as int],
        forall|n: u8| n < 16 ==> color_code(#[trigger] colors()[n as int]) == n,
{
    assert forall|c: Color| colors()[#[trigger] color_code(c) as int] == c by {
        match c {
            Color::Black => {},
            Color::Blue => {},
            Color::Green => {},
            Color::Cyan => {},
            Color::Red => {},
            Color::Pink => {},
            Color::Brown => {},
            Color::LightGray => {},
            Color::DarkGray => {},
            Color::LightBlue => {},
            Color::LightGreen => {},
            Color::LightCyan => {},
            Color::LightRed => {},
            Color::LightPink => {},
            Color::Yellow => {},
            Color::White => {},
        }
    }
}

/// The attribute byte for a foreground and a background colour.
pub open spec fn color_attr(fg: Color, bg: Color) -> u8 {
    (color_code(fg) + 16 * color_code(bg)) as u8
}

/// The cell that shows character `c` in colours `fg` on `bg`.
pub open spec fn vga_entry(c: u8, fg: Color, bg: Color) -> u16 {
    (c + 256 * color_attr(fg, bg)) as u16
}

/// What a cell shows: its character, foreground and background.
pub open spec fn decode_entry(e: u16) -> (u8, Color, Color) {
    ((e % 256) as u8, color_of(((e / 256) % 16) as u8), color_of((e / 4096) as u8))
}

/// The hardware number of a colour.
pub fn color_to_u8(c: Color) -> (r: u8)
    ensures
        r == color_code(c),
        r < 16,
{
    match c {
        Color::Black => 0,
        Color::Blue => 1,
        Color::Green => 2,
        Color::Cyan => 3,
        Color::Red => 4,
        Color::Pink => 5,
        Color::Brown => 6,
        Color::LightGray => 7,
        Color::DarkGray => 8,
        Color::LightBlue => 9,
        Color::LightGreen => 10,
        Color::LightCyan => 11,
        Color::LightRed => 12,
        Color::LightPink => 13,
        Color::Yellow => 14,
        Color::White => 15,
    }
}

/// The colour with hardware number `n`.
pub fn color_from_u8(n: u8) -> (r: Color)
    requires
        n < 16,
    ensures
        r == color_of(n),
        color_code(r) == n,
{
    if n == 0 { Color::Black }
    else if n == 1 { Color::Blue }
    else if n == 2 { Color::Green }
    else if n == 3 { Color::Cyan }
    else if n == 4 { Color::Red }
    else if n == 5 { Color::Pink }
    else if n == 6 { Color::Brown }
    else if n == 7 { Color::LightGray }
    else if n == 8 { Color::DarkGray }
    else if n == 9 { Color::LightBlue }
    else if n == 10 { Color::LightGreen }
    else if n == 11 { Color::LightCyan }
    else if n == 12 { Color::LightRed }
    else if n == 13 { Color::LightPink }
    else if n == 14 { Color::Yellow }
    else { Color::White }
}

/// The attribute byte: foreground in the low nibble, background in the high one.
pub fn make_color(fg: Color, bg: Color) -> (r: u8)
    ensures
        r == color_attr(fg, bg),
        r == color_code(fg) + 16 * color_code(bg),
{
    let f = color_to_u8(fg);
    let b = color_to_u8(bg);
    assert(f | (b << 4u8) == f + 16 * b) by (bit_vector)
        requires
            f < 16,
            b < 16,
    ;
    f | (b << 4u8)
}

/// The cell value for character `c` with attribute byte `color_entry`.
pub fn make_vgaentry(c: u8, color_entry: u8) -> (r: u16)
    ensures
        r == c + 256 * color_entry,
{
    let c16: u16 = c as u16;
    let color16: u16 = color_entry as u16;
    assert(c16 | (color16 << 8u16) == c16 + 256 * color16) by (bit_vector)
        requires
            c16 < 256,
            color16 < 256,
    ;
    c16 | (color16 << 8u16)
}

/// Splits a cell into its character, foreground and background.
pub fn get_vgaentry(entry: u16) -> (r: (u8, Color, Color))
    ensures
        r == decode_entry(entry),
{
    let c: u8 = (entry & 0xffu16) as u8;
    let color: u8 = (entry >> 8u16) as u8;
    assert({
        &&& (entry & 0xffu16) == entry % 256
        &&& (entry >> 8u16) == entry / 256
        &&& ((entry / 256) as u8) & 0xfu8 == (entry / 256) % 16
        &&& ((entry / 256) as u8) >> 4u8 == entry / 4096
    }) by (bit_vector);
    (c, color_from_u8(color & 0xfu8), color_from_u8(color >> 4u8))
}

/// Showing what a cell decodes to gives back the same cell.
pub proof fn lemma_entry_roundtrip(e: u16)
    ensures
        vga_entry(decode_entry(e).0, decode_entry(e).1, decode_entry(e).2) == e,
{
    let lo = e % 256;
    let fg = (e / 256) % 16;
    let bg = e / 4096;
    assert(color_code(color_of(fg as u8)) == fg);
    assert(color_code(color_of(bg as u8)) == bg);
    assert(lo + 256 * (fg + 16 * bg) == e);
}

/// Decoding the cell made from a character and two colours gives them back.
pub proof fn lemma_decode_vga_entry(c: u8, fg: Color, bg: Color)
    ensures
        decode_entry(vga_entry(c, fg, bg)) == (c, fg, bg),
{
    let f = color_code(fg);
    let b = color_code(bg);
    let e = vga_entry(c, fg, bg);
    assert(e == c + 256 * f + 4096 * b);
    assert(e % 256 == c);
    assert((e / 256) % 16 == f);
    assert(e / 4096 == b);
    assert(color_of(f) == fg);
    assert(color_of(b) == bg);
}

/// Reading a point after writing it gives what was written, and every
/// other point of the screen keeps what it showed: `put` writes the cell
/// `cols * y + x` and `get` reads it.
pub proof fn lemma_get_after_put(
    cells: Seq<u16>,
    cols: int,
    rows: int,
    x: int,
    y: int,
    chr: u8,
    fg: Color,
    bg: Color,
    x2: int,
    y2: int,
)
    requires
        cells.len() == cols * rows,
        0 <= x < cols,
        0 <= y < rows,
        0 <= x2 < cols,
        0 <= y2 < rows,
    ensures
        ({
            let after = cells.update(cols * y + x, vga_entry(chr, fg, bg));
            &&& decode_entry(after[cols * y + x]) == (chr, fg, bg)
            &&& (x2 != x || y2 != y) ==> after[cols * y2 + x2] == cells[cols * y2 + x2]
        }),
{
    lemma_decode_vga_entry(chr, fg, bg);
    lemma_index_in_grid(cols, rows, x, y);
    lemma_index_in_grid(cols, rows, x2, y2);
    if y < y2 {
        assert(cols * (y + 1) <= cols * y2) by (nonlinear_arith)
            requires
                y + 1 <= y2,
                cols >= 0,
        ;
    } else if y2 < y {
        assert(cols * (y2 + 1) <= cols * y) by (nonlinear_arith)
            requires
                y2 + 1 <= y,
                cols >= 0,
        ;
    }
}

/// The text-mode screen, `max.0` columns by `max.1` rows.
pub struct VGA {
    cells: Vec<u16>,
    max: (usize, usize),
    mapped: u32,
}

impl VGA {
    /// The screen is non-empty and holds one cell per position.
    pub closed spec fn wf(&self) -> bool {
        &&& self.max.0 >= 1
        &&& self.max.1 >= 1
        &&& self.cells@.len() == self.max.0 * self.max.1
        &&& self.max.0 * self.max.1 <= usize::MAX
        &&& self.max.0 == X_MAX
        &&& self.max.1 == Y_MAX
        &&& self.mapped == VGA_START
    }

    /// Where the screen memory lies.
    pub closed spec fn address(&self) -> u32 {
        self.mapped
    }

    /// The cells, row by row.
    pub closed spec fn cells(&self) -> Seq<u16> {
        self.cells@
    }

    /// Number of columns.
    pub closed spec fn cols(&self) -> nat {
        self.max.0 as nat
    }

    /// Number of rows.
    pub closed spec fn rows(&self) -> nat {
        self.max.1 as nat
    }

    /// The well-formedness in terms of the public views.
    pub proof fn lemma_wf(&self)
        requires
            self.wf(),
        ensures
            self.cols() >= 1,
            self.rows() >= 1,
            self.address() == VGA_START,
            self.cols() == X_MAX,
            self.rows() == Y_MAX,
            self.cells().len() == self.cols() * self.rows(),
    {
    }

    /// A blank screen of `X_MAX` by `Y_MAX` cells.
    pub fn new() -> (r: VGA)
        ensures
            r.wf(),
            r.cols() == X_MAX,
            r.rows() == Y_MAX,
            r.address() == VGA_START,
            r.cells() == Seq::new((X_MAX * Y_MAX) as nat, |k: int| 0u16),
    {
        let mut cells: Vec<u16> = Vec::new();
        let n: usize = X_MAX * Y_MAX;
        while cells.len() < n
            invariant
                cells@.len() <= n,
                n == X_MAX * Y_MAX,
                forall|k: int| 0 <= k < cells@.len() ==> cells@[k] == 0u16,
            decreases n - cells@.len(),
        {
            cells.push(0u16);
        }
        let r = VGA { cells, max: (X_MAX, Y_MAX), mapped: VGA_START };
        assert(r.cells() =~= Seq::new((X_MAX * Y_MAX) as nat, |k: int| 0u16));
        r
    }

    /// Writes character `chr` in colours `fg` on `bg` at `point`; false
    /// (and nothing written) where the point lies off the screen.
    pub fn put(&mut self, point: (usize, usize), chr: u8, fg: Color, bg: Color) -> (r: bool)
        requires
            old(self).wf(),
        ensures
            final(self).wf(),
            final(self).cols() == old(self).cols(),
            final(self).rows() == old(self).rows(),
            r == (point.0 < old(self).cols() && point.1 < old(self).rows()),
            r ==> final(self).cells() == old(self).cells().update(
                old(self).cols() * point.1 + point.0,
                vga_entry(chr, fg, bg),
            ),
            !r ==> final(self).cells() == old(self).cells(),
    {
        let (desired_x, desired_y) = point;
        let (my_x, my_y) = self.max;
        if desired_x >= my_x || desired_y >= my_y {
            false
        } else {
            proof {
                lemma_index_in_grid(my_x as int, my_y as int, desired_x as int, desired_y as int);
            }
            let idx = my_x * desired_y + desired_x;
            let entry = make_vgaentry(chr, make_color(fg, bg));
            self.cells.set(idx, entry);
            true
        }
    }

    /// What the screen shows at `point`, or `None` off the screen.
    pub fn get(&mut self, point: (usize, usize)) -> (r: Option<(u8, Color, Color)>)
        requires
            old(self).wf(),
        ensures
            *final(self) == *old(self),
            r == (if point.0 < old(self).cols() && point.1 < old(self).rows() {
                Some(decode_entry(old(self).cells()[old(self).cols() * point.1 + point.0]))
            } else {
                None
            }),
    {
        let (desired_x, desired_y) = point;
        let (my_x, my_y) = self.max;
        if desired_x >= my_x || desired_y >= my_y {
            None
        } else {
            proof {
                lemma_index_in_grid(my_x as int, my_y as int, desired_x as int, desired_y as int);
            }
            let entry = self.cells[my_x * desired_y + desired_x];
            Some(get_vgaentry(entry))
        }
    }

    /// Where the screen memory lies.
    pub fn mapped(&self) -> (r: u32)
        ensures
            r == self.address(),
    {
        self.mapped
    }

    /// The address of the cell at `point` in the screen memory (two bytes a
    /// cell, row by row), or `None` off the screen.
    pub fn cell_address(&self, point: (usize, usize)) -> (r: Option<u32>)
        requires
            self.wf(),
        ensures
            r == (if point.0 < self.cols() && point.1 < self.rows() {
                Some((VGA_START + 2 * (self.cols() * point.1 + point.0)) as u32)
            } else {
                None
            }),
    {
        let (x, y) = point;
        if x >= self.max.0 || y >= self.max.1 {
            None
        } else {
            proof {
                lemma_index_in_grid(self.max.0 as int, self.max.1 as int, x as int, y as int);
            }
            let index: u32 = (self.max.0 * y + x) as u32;
            Some(self.mapped + 2 * index)
        }
    }

    /// Number of columns.
    pub fn x_max(&self) -> (r: usize)
        ensures
            r == self.cols(),
    {
        let (x, _) = self.max;
        x
    }

    /// Number of rows.
    pub fn y_max(&self) -> (r: usize)
        ensures
            r == self.rows(),
    {
        let (_, y) = self.max;
        y
    }
}

/// A point inside a `cols` by `rows` grid has a row-major index inside it.
pub proof fn lemma_index_in_grid(cols: int, rows: int, x: int, y: int)
    requires
        0 <= x < cols,
        0 <= y < rows,
    ensures
        0 <= cols * y + x < cols * rows,
        cols * y + x < cols * (y + 1),
        cols * y <= cols * y + x,
{
    assert(cols * y + cols == cols * (y + 1)) by (nonlinear_arith);
    assert(cols * (y + 1) <= cols * rows) by (nonlinear_arith)
        requires
            y + 1 <= rows,
            cols >= 0,
    ;
    assert(cols * y >= 0) by (nonlinear_arith)
        requires
            cols >= 0,
            y >= 0,
    ;
}

} // verus!
