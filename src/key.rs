//! One keypress, as the bytes that a raw terminal sends for it.
//!
//! A key arrives as a short burst of bytes: one byte for a plain key, a
//! UTF-8 sequence for a non-ASCII character, and `ESC [ X` for an arrow. A
//! bare escape arrives alone, which tells it apart from an arrow.
use vstd::prelude::*;
use vstd::utf8::{decode_utf8, valid_utf8};

verus! {

broadcast use vstd::string::group_string_axioms;

/// The escape byte.
pub const ESC: u8 = 27;
/// The most bytes that one keypress is read as.
pub const KEY_BYTES: usize = 6;

/// Why a keypress could not be taken.
#[derive(Clone, Copy, Debug, PartialEq, Eq, Structural)]
pub enum ReadError {
    /// The input gave no byte: it is closed, which is not a keypress.
    Empty,
}

/// The last keypress read.
pub struct Key {
    data: [u8; 6],
    rd: usize,
}

/// Relies on `std::str::from_utf8`: it accepts exactly the well-formed UTF-8
/// byte strings, and the string it gives holds the characters they encode.
#[verifier::external_body]
fn utf8_string(bytes: &[u8]) -> (r: Option<String>)
    ensures
        r is Some <==> valid_utf8(bytes@),
        r matches Some(s) ==> s@ == decode_utf8(bytes@),
{
    match std::str::from_utf8(bytes) {
        Ok(s) => Some(s.to_string()),
        Err(_) => None,
    }
}

/// Whether `c` is a control character: `U+0000..=U+001F` or `U+007F..=U+009F`.
pub open spec fn is_control(c: char) -> bool {
    (c as u32) <= 0x1f || (0x7f <= (c as u32) && (c as u32) <= 0x9f)
}

/// The printable character that the bytes encode first, if they are UTF-8.
pub open spec fn printable_utf8(b: Seq<u8>) -> Option<char> {
    if !valid_utf8(b) || b.len() == 0 {
        None
    } else {
        let c = decode_utf8(b)[0];
        if is_control(c) { None } else { Some(c) }
    }
}

impl Key {
    /// The bytes of the last keypress.
    pub closed spec fn pressed(&self) -> Seq<u8> {
        self.data@.take(if self.rd < 6 { self.rd as int } else { 6 })
    }

    /// The first byte of the buffer, which holds the last keypress's first
    /// byte once a key was read.
    pub closed spec fn first_byte(&self) -> u8 {
        self.data@[0]
    }

    /// No keypress yet.
    pub fn new() -> (r: Key)
        ensures
            r.pressed() == Seq::<u8>::empty(),
            r.first_byte() == 0,
    {
        let r = Key { data: [0; 6], rd: 0 };
        assert(r.pressed() =~= Seq::<u8>::empty());
        r
    }

    /// A key pressed as exactly these bytes, of which there are 1 to 6.
    pub fn from_bytes(bytes: &[u8]) -> (r: Key)
        requires
            1 <= bytes@.len() <= KEY_BYTES,
        ensures
            r.pressed() == bytes@,
    {
        let mut k = Key::new();
        let _ = k.read(bytes);
        k
    }

    /// Takes the bytes that one read of the terminal gave as the new
    /// keypress, at most the first six; no byte at all is an error, and the
    /// last keypress then stays.
    pub fn read(&mut self, bytes: &[u8]) -> (r: Result<(), ReadError>)
        ensures
            bytes@.len() == 0 ==> r == Err::<(), ReadError>(ReadError::Empty) && final(self).pressed() == old(self).pressed(),
            bytes@.len() > 0 ==> r is Ok && final(self).first_byte() == bytes@[0] && final(self).pressed() == bytes@.take(
                if bytes@.len() < KEY_BYTES { bytes@.len() as int } else { KEY_BYTES as int },
            ),
    {
        if bytes.len() == 0 {
            return Err(ReadError::Empty);
        }
        let n: usize = if bytes.len() < KEY_BYTES { bytes.len() } else { KEY_BYTES };
        let mut i: usize = 0;
        while i < n
            invariant
                i <= n,
                n <= bytes@.len(),
                n <= 6,
                self.data@.len() == 6,
                forall|j: int| 0 <= j < i ==> self.data@[j] == bytes@[j],
            decreases n - i,
        {
            self.data[i] = bytes[i];
            i = i + 1;
        }
        self.rd = n;
        assert(self.pressed() =~= bytes@.take(n as int));
        Ok(())
    }

    /// The bytes of the last keypress.
    fn pressed_bytes(&self) -> (r: Vec<u8>)
        ensures
            r@ == self.pressed(),
    {
        let mut v: Vec<u8> = Vec::new();
        let mut i: usize = 0;
        let n = if self.rd < 6 { self.rd } else { 6 };
        while i < n
            invariant
                i <= n,
                n == if self.rd < 6 { self.rd } else { 6 },
                self.data@.len() == 6,
                v@ == self.data@.take(i as int),
            decreases n - i,
        {
            v.push(self.data[i]);
            assert(v@ =~= self.data@.take(i + 1));
            i = i + 1;
        }
        assert(self.data@.take(n as int) =~= self.pressed());
        v
    }

    /// Whether the last keypress is the single byte `b`.
    fn is_one(&self, b: u8) -> (r: bool)
        ensures
            r == (self.pressed() == seq![b]),
    {
        let p = self.pressed_bytes();
        let r = p.len() == 1 && p[0] == b;
        if r {
            assert(p@ =~= seq![b]);
        }
        r
    }

    /// Whether the last keypress is the escape sequence `ESC [ x`.
    fn is_escape_seq(&self, x: u8) -> (r: bool)
        ensures
            r == (self.pressed() == seq![ESC, 91u8, x]),
    {
        let p = self.pressed_bytes();
        let r = p.len() == 3 && p[0] == ESC && p[1] == 91u8 && p[2] == x;
        if r {
            assert(p@ =~= seq![ESC, 91u8, x]);
        }
        r
    }

    /// The character of the last keypress where it is one printable ASCII
    /// byte, from space to `~`.
    pub fn as_printable_ascii(&self) -> (r: Option<char>)
        ensures
            r == (if self.pressed().len() == 1 && 32 <= self.pressed()[0] <= 126 {
                Some(self.pressed()[0] as char)
            } else {
                None
            }),
    {
        let p = self.pressed_bytes();
        if p.len() == 1 && 32 <= p[0] && p[0] <= 126 {
            Some(p[0] as char)
        } else {
            None
        }
    }

    /// The first character of the last keypress where its bytes are UTF-8
    /// and that character is not a control character.
    pub fn as_printable_utf8(&self) -> (r: Option<char>)
        ensures
            r == printable_utf8(self.pressed()),
    {
        let p = self.pressed_bytes();
        match utf8_string(p.as_slice()) {
            None => None,
            Some(s) => {
                let mut it = s.as_str().chars();
                match it.next() {
                    None => None,
                    Some(c) => {
                        let u = c as u32;
                        if u <= 0x1f || (0x7f <= u && u <= 0x9f) {
                            None
                        } else {
                            Some(c)
                        }
                    },
                }
            },
        }
    }

    /// The first byte of the last keypress read as a character, whatever it is.
    pub fn as_char_unchecked(&self) -> (r: char)
        ensures
            r == (self.first_byte() as char),
    {
        self.data[0] as char
    }

    /// Backspace, sent as byte 8 or byte 127 depending on the terminal.
    pub fn is_backspace(&self) -> (r: bool)
        ensures
            r == (self.pressed() == seq![8u8] || self.pressed() == seq![127u8]),
    {
        self.is_one(8u8) || self.is_one(127u8)
    }

    /// Enter, sent as a carriage return.
    pub fn is_enter(&self) -> (r: bool)
        ensures
            r == (self.pressed() == seq![13u8]),
    {
        self.is_one(13u8)
    }

    /// A bare escape.
    pub fn is_esc(&self) -> (r: bool)
        ensures
            r == (self.pressed() == seq![ESC]),
    {
        self.is_one(ESC)
    }

    /// The up arrow, `ESC [ A`.
    pub fn is_up(&self) -> (r: bool)
        ensures
            r == (self.pressed() == seq![ESC, 91u8, 65u8]),
    {
        self.is_escape_seq(65u8)
    }

    /// The down arrow, `ESC [ B`.
    pub fn is_down(&self) -> (r: bool)
        ensures
            r == (self.pressed() == seq![ESC, 91u8, 66u8]),
    {
        self.is_escape_seq(66u8)
    }

    /// The right arrow, `ESC [ C`.
    pub fn is_right(&self) -> (r: bool)
        ensures
            r == (self.pressed() == seq![ESC, 91u8, 67u8]),
    {
        self.is_escape_seq(67u8)
    }

    /// The left arrow, `ESC [ D`.
    pub fn is_left(&self) -> (r: bool)
        ensures
            r == (self.pressed() == seq![ESC, 91u8, 68u8]),
    {
        self.is_escape_seq(68u8)
    }

    /// Ctrl-E, byte 5.
    pub fn is_ctrl_e(&self) -> (r: bool)
        ensures
            r == (self.pressed() == seq![5u8]),
    {
        self.is_one(5u8)
    }

    /// Ctrl-Y, byte 25.
    pub fn is_ctrl_y(&self) -> (r: bool)
        ensures
            r == (self.pressed() == seq![25u8]),
    {
        self.is_one(25u8)
    }
}

} // verus!
