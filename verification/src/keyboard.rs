//! The PS/2 keyboard: its status flags and the translation of key codes to
//! the ASCII characters handed to a callback.
//!
//! Reading the keyboard's ports and calling the callback are left to the
//! caller, who hands in the bytes read.
use vstd::prelude::*;
use crate::cpu::Port;

verus! {

/// The output buffer holds a byte for the processor.
pub const OUTPUT_FULL: u8 = 0b00000001;
/// The input buffer holds a byte for the keyboard.
pub const INPUT_FULL: u8 = 0b00000010;
/// The self test passed.
pub const SYSTEM: u8 = 0b00000100;
/// The last byte written was a command.
pub const COMMAND: u8 = 0b00001000;
/// The keyboard is locked.
pub const KEYBOARD_LOCKED: u8 = 0b00010000;
/// The output buffer holds a byte from the auxiliary device.
pub const AUX_OUTPUT_FULL: u8 = 0b00100000;
/// A timeout occurred.
pub const TIMEOUT: u8 = 0b01000000;
/// A parity error occurred.
pub const PARITY_ERROR: u8 = 0b10000000;

/// A set of status flags.
#[derive(Clone, Copy, Debug, PartialEq, Eq, Structural)]
pub struct Status {
    bits: u8,
}

/// Every defined status flag.
pub open spec fn all_flags() -> u8 {
    (OUTPUT_FULL | INPUT_FULL | SYSTEM | COMMAND | KEYBOARD_LOCKED | AUX_OUTPUT_FULL | TIMEOUT
        | PARITY_ERROR) as u8
}

impl Status {
    /// The flags as a byte.
    pub closed spec fn bits_spec(&self) -> u8 {
        self.bits
    }

    /// The status with flags `bits`, or `None` where `bits` holds a bit that
    /// is no flag (every bit of a byte is one).
    pub fn from_bits(bits: u8) -> (r: Option<Status>)
        ensures
            (bits & !all_flags()) == 0 ==> (r matches Some(s) && s.bits_spec() == bits),
            (bits & !all_flags()) != 0 ==> r is None,
            r is Some,
    {
        assert(all_flags() == 0xffu8) by (bit_vector);
        assert(bits & !0xffu8 == 0) by (bit_vector);
        let all: u8 = OUTPUT_FULL | INPUT_FULL | SYSTEM | COMMAND | KEYBOARD_LOCKED | AUX_OUTPUT_FULL
            | TIMEOUT | PARITY_ERROR;
        if bits & !all == 0 {
            Some(Status { bits })
        } else {
            None
        }
    }

    /// The flags as a byte.
    pub fn bits(&self) -> (r: u8)
        ensures
            r == self.bits_spec(),
    {
        self.bits
    }

    /// Whether every flag of `flag` is set.
    pub fn contains(&self, flag: u8) -> (r: bool)
        ensures
            r == (self.bits_spec() & flag == flag),
    {
        self.bits & flag == flag
    }
}

/// The character for each key code of the first 59 (unknown keys give `?`).
pub open spec fn key_code_table() -> Seq<u8> {
    seq![
        63u8, 63, 49, 50, 51, 52, 53, 54, 55, 56, 57, 48, 45, 61, 63, 63, 113, 119, 101, 114, 116,
        121, 117, 105, 111, 112, 91, 93, 10, 63, 97, 115, 100, 102, 103, 104, 106, 107, 108, 59, 39,
        96, 63, 92, 122, 120, 99, 118, 98, 110, 109, 44, 46, 47, 63, 42, 63, 32, 63,
    ]
}

/// Key code `k` below 59 gives character `k` of the key map
/// `??1234567890-=??qwertyuiop[]\n?asdfghjkl;'`?\\zxcvbnm,./?*? ?`, one
/// character per key code from 0: so codes 2 to 11 are the digits 1 to 0,
/// 16 to 25 `qwertyuiop`, 30 to 38 `asdfghjkl`, 44 to 50 `zxcvbnm` and 57
/// the space bar; any other code gives nothing.
pub proof fn lemma_key_map(k: u8)
    ensures
        (k as int) < 59 ==> key_ascii(k) == Some(
            ("??1234567890-=??qwertyuiop[]\n?asdfghjkl;'`?\\zxcvbnm,./?*? ?"@[k as int]) as u8,
        ),
        (k as int) >= 59 ==> key_ascii(k) is None,
{
    reveal_strlit("??1234567890-=??qwertyuiop[]\n?asdfghjkl;'`?\\zxcvbnm,./?*? ?");
    assert(key_code_table() =~= Seq::new(
        59,
        |i: int| ("??1234567890-=??qwertyuiop[]\n?asdfghjkl;'`?\\zxcvbnm,./?*? ?"@[i]) as u8,
    ));
}

/// The character for key code `keycode`, or `None` past the table.
pub open spec fn key_ascii(keycode: u8) -> Option<u8> {
    if (keycode as int) < key_code_table().len() {
        Some(key_code_table()[keycode as int])
    } else {
        None
    }
}

/// The keyboard: the callback for typed characters and its two ports.
pub struct Keyboard<C> {
    callback: C,
    control_port: Port,
    data_port: Port,
}

impl<C> Keyboard<C> {
    /// The callback.
    pub closed spec fn callback_spec(&self) -> C {
        self.callback
    }

    /// The command/status port and the data port.
    pub closed spec fn ports(&self) -> (Port, Port) {
        (self.control_port, self.data_port)
    }

    /// A keyboard with `callback` on the given ports.
    pub fn new(callback: C, control_port: Port, data_port: Port) -> (r: Keyboard<C>)
        ensures
            r.callback_spec() == callback,
            r.ports() == (control_port, data_port),
    {
        Keyboard { callback, control_port, data_port }
    }

    /// Replaces the callback.
    pub fn register_callback(&mut self, callback: C)
        ensures
            final(self).callback_spec() == callback,
            final(self).ports() == old(self).ports(),
    {
        self.callback = callback;
    }

    /// The status read from the status port as the byte `status_byte`.
    pub fn get_status(&self, status_byte: u8) -> (r: Status)
        ensures
            r.bits_spec() == status_byte,
    {
        let s = Status::from_bits(status_byte);
        s.unwrap()
    }

    /// The character to hand to the callback for the key code read from the
    /// data port, or `None` when the code is past the table.
    pub fn got_interrupted(&self, keycode: u8) -> (r: Option<u8>)
        ensures
            r == key_ascii(keycode),
    {
        let table: Vec<u8> = vec![
            63u8, 63, 49, 50, 51, 52, 53, 54, 55, 56, 57, 48, 45, 61, 63, 63, 113, 119, 101, 114,
            116, 121, 117, 105, 111, 112, 91, 93, 10, 63, 97, 115, 100, 102, 103, 104, 106, 107,
            108, 59, 39, 96, 63, 92, 122, 120, 99, 118, 98, 110, 109, 44, 46, 47, 63, 42, 63, 32,
            63,
        ];
        assert(table@ =~= key_code_table());
        let k = keycode as usize;
        if k < table.len() {
            Some(table[k])
        } else {
            None
        }
    }

    /// The callback.
    pub fn callback(&self) -> (r: &C)
        ensures
            *r == self.callback_spec(),
    {
        &self.callback
    }

    /// The command/status port.
    pub fn control_port(&self) -> (r: Port)
        ensures
            r == self.ports().0,
    {
        self.control_port
    }

    /// The data port.
    pub fn data_port(&self) -> (r: Port)
        ensures
            r == self.ports().1,
    {
        self.data_port
    }
}

} // verus!
