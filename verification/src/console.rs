//! The kernel console: a terminal on the VGA screen whose cursor moves one
//! cell on after each character, goes to the start of the next row after a
//! newline, and scrolls the screen up (blanking the new last row) when it
//! runs past the bottom.
use vstd::prelude::*;
use crate::vga::{Color, VGA, VGA_START, X_MAX, Y_MAX, decode_entry, lemma_decode_vga_entry};
use crate::terminal::{Screen, screen_wf, cell_index, scrolled, text_entry, scroll_screen, clear_vga};

verus! {

/// The screen after writing byte `c`: a newline moves the cursor to the
/// start of the next row; any other byte is shown at the cursor, which
/// moves one cell on. A cursor past the last column wraps to the next row;
/// a cursor past the last row scrolls the screen up, blanking the last row,
/// and stays on the last row.
pub open spec fn console_put_char(s: Screen, c: u8) -> Screen {
    let cells1 = if c == 10 { s.cells } else { s.cells.update(cell_index(s.x, s.y), text_entry(c)) };
    let x1: int = if c == 10 { 0 } else { s.x + 1 };
    let y1: int = if c == 10 { s.y + 1 } else { s.y };
    let x2: int = if x1 >= X_MAX { 0 } else { x1 };
    let y2: int = if x1 >= X_MAX { y1 + 1 } else { y1 };
    if y2 >= Y_MAX {
        Screen { cells: scrolled(cells1, 0), x: x2, y: Y_MAX - 1 }
    } else {
        Screen { cells: cells1, x: x2, y: y2 }
    }
}

/// The screen after writing the bytes `bytes` in order.
pub open spec fn console_put_chars(s: Screen, bytes: Seq<u8>) -> Screen
    decreases bytes.len(),
{
    if bytes.len() == 0 {
        s
    } else {
        console_put_char(console_put_chars(s, bytes.drop_last()), bytes.last())
    }
}

/// Writing one more byte after a run of bytes is writing the longer run.
pub proof fn lemma_console_put_chars_push(s: Screen, bytes: Seq<u8>, c: u8)
    ensures
        console_put_chars(s, bytes.push(c)) == console_put_char(console_put_chars(s, bytes), c),
{
    assert(bytes.push(c).drop_last() =~= bytes);
}

/// A byte other than a newline shows, white on black, where the cursor
/// was (one row higher if the screen scrolled); a newline writes nothing
/// and starts the next row.
pub proof fn lemma_console_put_char(s: Screen, c: u8)
    requires
        screen_wf(s),
    ensures
        ({
            let t = console_put_char(s, c);
            &&& screen_wf(t)
            &&& c != 10 && s.x + 1 < X_MAX ==> t.x == s.x + 1 && t.y == s.y
                && t.cells[cell_index(s.x, s.y)] == text_entry(c)
            &&& c != 10 && s.x + 1 == X_MAX && s.y + 1 < Y_MAX ==> t.x == 0 && t.y == s.y + 1
                && t.cells[cell_index(s.x, s.y)] == text_entry(c)
            &&& c != 10 && s.x + 1 == X_MAX && s.y + 1 == Y_MAX ==> t.x == 0 && t.y == Y_MAX - 1
                && t.cells[cell_index(s.x, s.y - 1)] == text_entry(c)
            &&& c == 10 && s.y + 1 < Y_MAX ==> t.x == 0 && t.y == s.y + 1 && t.cells == s.cells
            &&& c == 10 && s.y + 1 == Y_MAX ==> t.x == 0 && t.y == Y_MAX - 1 && t.cells == scrolled(s.cells, 0)
            &&& decode_entry(text_entry(c)) == (c, Color::White, Color::Black)
        }),
{
    lemma_decode_vga_entry(c, Color::White, Color::Black);
}

struct Point {
    x: usize,
    y: usize,
}

/// The console on a VGA screen.
pub struct Terminal {
    current: Point,
    vga: VGA,
}

impl View for Terminal {
    type V = Screen;

    closed spec fn view(&self) -> Screen {
        Screen { cells: self.vga.cells(), x: self.current.x as int, y: self.current.y as int }
    }
}

impl Terminal {
    /// The screen is well formed and the cursor lies on it.
    pub closed spec fn wf(&self) -> bool {
        &&& self.vga.wf()
        &&& self.vga.cols() == X_MAX
        &&& self.vga.rows() == Y_MAX
        &&& self.current.x < X_MAX
        &&& self.current.y < Y_MAX
    }

    /// A well-formed console has a well-formed screen.
    pub proof fn lemma_wf(&self)
        requires
            self.wf(),
        ensures
            screen_wf(self@),
            self.address() == VGA_START,
    {
        self.vga.lemma_wf();
    }

    /// Where the screen memory lies.
    pub closed spec fn address(&self) -> u32 {
        self.vga.address()
    }

    /// Where the screen memory lies: always at `VGA_START`.
    pub fn screen_address(&self) -> (r: u32)
        requires
            self.wf(),
        ensures
            r == self.address(),
            r == VGA_START,
    {
        proof {
            self.vga.lemma_wf();
        }
        self.vga.mapped()
    }

    /// The address in screen memory of the cell at `point`, or `None` off
    /// the screen.
    pub fn cell_address(&self, point: (usize, usize)) -> (r: Option<u32>)
        requires
            self.wf(),
        ensures
            r == (if point.0 < X_MAX && point.1 < Y_MAX {
                Some((VGA_START + 2 * cell_index(point.0 as int, point.1 as int)) as u32)
            } else {
                None
            }),
    {
        proof {
            self.vga.lemma_wf();
        }
        self.vga.cell_address(point)
    }

    /// The console on `vga`: cursor at the top left, screen cleared.
    pub fn init_global(vga: VGA) -> (r: Terminal)
        requires
            vga.wf(),
        ensures
            r.wf(),
            r.address() == vga.address(),
            r@ == (Screen { cells: Seq::new((X_MAX * Y_MAX) as nat, |k: int| 0u16), x: 0, y: 0 }),
    {
        proof {
            vga.lemma_wf();
        }
        let mut t = Terminal { current: Point { x: 0, y: 0 }, vga };
        t.clear_screen();
        proof {
            t.lemma_wf();
        }
        t
    }

    /// Writes one byte (see `console_put_char`).
    pub fn put_char(&mut self, c: u8)
        requires
            old(self).wf(),
        ensures
            final(self).wf(),
            final(self)@ == console_put_char(old(self)@, c),
    {
        proof {
            self.vga.lemma_wf();
        }
        if c == 10 {
            self.current = Point { x: 0, y: self.current.y + 1 };
        } else {
            self.vga.put((self.current.x, self.current.y), c, Color::White, Color::Black);
            self.current.x = self.current.x + 1;
        }
        if self.current.x >= X_MAX {
            self.current.x = 0;
            self.current.y = self.current.y + 1;
        }
        if self.current.y >= Y_MAX {
            self.scroll();
            self.current.y = Y_MAX - 1;
        }
    }

    /// Moves every row up by one and blanks the last row.
    fn scroll(&mut self)
        requires
            old(self).vga.wf(),
            old(self).vga.cols() == X_MAX,
            old(self).vga.rows() == Y_MAX,
        ensures
            final(self).vga.wf(),
            final(self).vga.cols() == X_MAX,
            final(self).vga.rows() == Y_MAX,
            final(self).current == old(self).current,
            final(self).vga.cells() == scrolled(old(self).vga.cells(), 0),
    {
        proof {
            lemma_decode_vga_entry(0, Color::Black, Color::Black);
        }
        scroll_screen(&mut self.vga, 0, Color::Black, Color::Black);
    }

    /// Blanks every cell; the cursor stays.
    pub fn clear_screen(&mut self)
        requires
            old(self).wf(),
        ensures
            final(self).wf(),
            final(self)@ == (Screen {
                cells: Seq::new((X_MAX * Y_MAX) as nat, |k: int| 0u16),
                x: old(self)@.x,
                y: old(self)@.y,
            }),
    {
        clear_vga(&mut self.vga);
    }

    /// Writes the bytes of `buf` in order; returns how many were written:
    /// all of them.
    pub fn write(&mut self, buf: &[u8]) -> (r: usize)
        requires
            old(self).wf(),
        ensures
            final(self).wf(),
            final(self)@ == console_put_chars(old(self)@, buf@),
            r == buf@.len(),
    {
        let mut i: usize = 0;
        while i < buf.len()
            invariant
                self.wf(),
                i <= buf@.len(),
                self@ == console_put_chars(old(self)@, buf@.subrange(0, i as int)),
            decreases buf@.len() - i,
        {
            proof {
                lemma_console_put_chars_push(old(self)@, buf@.subrange(0, i as int), buf@[i as int]);
                assert(buf@.subrange(0, i as int).push(buf@[i as int]) =~= buf@.subrange(0, i + 1));
            }
            self.put_char(buf[i]);
            i = i + 1;
        }
        assert(buf@.subrange(0, buf@.len() as int) =~= buf@);
        buf.len()
    }

    /// The cursor: column and row.
    pub fn cursor(&self) -> (r: (usize, usize))
        ensures
            r.0 == self@.x,
            r.1 == self@.y,
    {
        (self.current.x, self.current.y)
    }

    /// What the screen shows at `point`, or `None` off the screen.
    pub fn get(&mut self, point: (usize, usize)) -> (r: Option<(u8, Color, Color)>)
        requires
            old(self).wf(),
        ensures
            *final(self) == *old(self),
            r == (if point.0 < X_MAX && point.1 < Y_MAX {
                Some(decode_entry(old(self)@.cells[cell_index(point.0 as int, point.1 as int)]))
            } else {
                None
            }),
    {
        self.vga.get(point)
    }
}

} // verus!
