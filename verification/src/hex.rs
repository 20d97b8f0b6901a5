//! Lowercase hexadecimal text.

use vstd::prelude::*;

verus! {

/// `String::push` appends the character to the end of the string.
pub assume_specification[ String::push ](text: &mut String, ch: char)
    ensures
        final(text)@ == old(text)@.push(ch),
;

/// The hexadecimal digit of a value below sixteen.
pub open spec fn hex_char(n: nat) -> char {
    if n < 10 {
        (48 + n) as char
    } else {
        (87 + n) as char
    }
}

/// The two hexadecimal digits of a byte, the high one first.
pub open spec fn hex_of_byte(b: u8) -> Seq<char> {
    seq![hex_char((b / 16) as nat), hex_char((b % 16) as nat)]
}

/// The hexadecimal digits of a byte string, two for each byte.
pub open spec fn hex_of_bytes(s: Seq<u8>) -> Seq<char>
    decreases s.len(),
{
    if s.len() == 0 {
        Seq::empty()
    } else {
        hex_of_bytes(s.drop_last()) + hex_of_byte(s.last())
    }
}

/// The hexadecimal digit of `n`.
pub fn hex_digit(n: u8) -> (c: char)
    requires
        n < 16,
    ensures
        c == hex_char(n as nat),
{
    if n < 10 {
        (48 + n) as char
    } else {
        (87 + n) as char
    }
}

/// Appends the two hexadecimal digits of `b` to `text`.
pub fn push_hex(text: &mut String, b: u8)
    ensures
        final(text)@ == old(text)@ + hex_of_byte(b),
{
    let ghost before = text@;
    text.push(hex_digit(b / 16));
    text.push(hex_digit(b % 16));
    proof {
        assert(text@ =~= before + hex_of_byte(b));
    }
}

} // verus!
