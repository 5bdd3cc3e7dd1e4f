//! Messages on the kernel terminal: clearing it at start-up, printing, and
//! the message shown when the kernel gives up.
use vstd::prelude::*;
use crate::terminal::{Terminal, Screen, put_chars, put_char_spec, str_bytes};
use crate::vga::{X_MAX, Y_MAX};

verus! {

/// Clears the terminal.
pub fn init(term: &mut Terminal)
    requires
        old(term).wf(),
    ensures
        final(term).wf(),
        final(term)@ == (Screen {
            cells: Seq::new((X_MAX * Y_MAX) as nat, |k: int| 0u16),
            x: old(term)@.x,
            y: old(term)@.y,
        }),
{
    term.clear_screen();
}

/// Writes `string` to the terminal.
pub fn print(term: &mut Terminal, string: &str)
    requires
        old(term).wf(),
    ensures
        final(term).wf(),
        final(term)@ == put_chars(old(term)@, str_bytes(string@)),
{
    term.print(string);
}

/// Writes `string` and a newline to the terminal.
pub fn println(term: &mut Terminal, string: &str)
    requires
        old(term).wf(),
    ensures
        final(term).wf(),
        final(term)@ == put_char_spec(put_chars(old(term)@, str_bytes(string@)), 10),
{
    term.println(string);
}

/// Writes the message of a fatal error: `string` on one line and
/// `^ panic ->` on the next. (The kernel then stops for good.)
pub fn panic_message(term: &mut Terminal, string: &str)
    requires
        old(term).wf(),
    ensures
        final(term).wf(),
        final(term)@ == put_char_spec(
            put_chars(
                put_char_spec(put_chars(old(term)@, str_bytes(string@)), 10),
                str_bytes("^ panic ->"@),
            ),
            10,
        ),
{
    println(term, string);
    println(term, "^ panic ->");
}

} // verus!
