//! Log lines on the console: `[LEVEL:file line]: message`, one line each,
//! naming the place in the source that logged them.
use vstd::prelude::*;
use vstd::string::StringSliceAdditionalSpecFns;
use crate::console::{Terminal, console_put_chars};

verus! {

/// The decimal digits of `n`, most significant first, without leading
/// zeros (one `0` for zero).
pub open spec fn decimal(n: nat) -> Seq<u8>
    decreases n,
{
    if n < 10 { seq![(48 + n) as u8] } else { decimal(n / 10).push((48 + n % 10) as u8) }
}

/// The decimal digits of `n`.
pub fn format_decimal(n: usize) -> (r: Vec<u8>)
    ensures
        r@ == decimal(n as nat),
    decreases n,
{
    let digit: u8 = (48 + n % 10) as u8;
    if n < 10 {
        let v: Vec<u8> = vec![digit];
        assert(v@ =~= decimal(n as nat));
        v
    } else {
        let mut v = format_decimal(n / 10);
        v.push(digit);
        v
    }
}

/// Appends the bytes of `s` to `v`.
pub(crate) fn push_all(v: &mut Vec<u8>, s: &[u8])
    ensures
        final(v)@ == old(v)@ + s@,
{
    let mut i: usize = 0;
    while i < s.len()
        invariant
            i <= s@.len(),
            v@ == old(v)@ + s@.subrange(0, i as int),
        decreases s@.len() - i,
    {
        v.push(s[i]);
        i = i + 1;
        assert(v@ =~= old(v)@ + s@.subrange(0, i as int));
    }
    assert(s@.subrange(0, s@.len() as int) =~= s@);
}

/// The line logged at `level` from line `line` of `file` with `message`.
pub open spec fn log_line(level: Seq<u8>, file: Seq<u8>, line: nat, message: Seq<u8>) -> Seq<u8> {
    seq![91u8] + level + seq![58u8] + file + seq![32u8] + decimal(line) + "]: ".spec_bytes() + message + seq![10u8]
}

/// The line logged at `level` from line `line` of `file` with `message`.
pub fn log_bytes(level: &str, file: &str, line: usize, message: &[u8]) -> (r: Vec<u8>)
    ensures
        r@ == log_line(level.spec_bytes(), file.spec_bytes(), line as nat, message@),
{
    let mut v: Vec<u8> = Vec::new();
    v.push(91);
    push_all(&mut v, level.as_bytes());
    v.push(58);
    push_all(&mut v, file.as_bytes());
    v.push(32);
    push_all(&mut v, format_decimal(line).as_slice());
    push_all(&mut v, "]: ".as_bytes());
    push_all(&mut v, message);
    v.push(10);
    assert(v@ =~= log_line(level.spec_bytes(), file.spec_bytes(), line as nat, message@));
    v
}

/// Writes the line logged at `level` from line `line` of `file` with
/// `message` to the console.
pub fn log(term: &mut Terminal, level: &str, file: &str, line: usize, message: &[u8])
    requires
        old(term).wf(),
    ensures
        final(term).wf(),
        final(term)@ == console_put_chars(old(term)@, log_line(level.spec_bytes(), file.spec_bytes(), line as nat, message@)),
{
    let v = log_bytes(level, file, line, message);
    term.write(v.as_slice());
}

/// Writes a debug line (level `DEBUG`) to the console.
pub fn debug(term: &mut Terminal, file: &str, line: usize, message: &[u8])
    requires
        old(term).wf(),
    ensures
        final(term).wf(),
        final(term)@ == console_put_chars(old(term)@, log_line("DEBUG".spec_bytes(), file.spec_bytes(), line as nat, message@)),
{
    log(term, "DEBUG", file, line, message)
}

} // verus!
