//! Conversions that the machine takes from byteorder and from std.
use byteorder::{ByteOrder, LittleEndian};
use vstd::prelude::*;

verus! {

/// The little-endian word made of a low and a high byte.
pub open spec fn le_word(lo: u8, hi: u8) -> u16 {
    (lo + 256 * hi) as u16
}

/// Whether a number is a Unicode scalar value: a code point that is not a
/// surrogate.
pub open spec fn is_scalar(v: u32) -> bool {
    v < 0xD800 || (0xE000 <= v && v <= 0x10FFFF)
}

/// Relies on byteorder's `LittleEndian::read_u16`, which reads the first two
/// bytes of a buffer as a little-endian `u16`.
#[verifier::external_body]
pub(crate) fn read_le_word(lo: u8, hi: u8) -> (r: u16)
    ensures
        r == le_word(lo, hi),
{
    LittleEndian::read_u16(&[lo, hi])
}

/// Relies on `char::from_u32`, which returns the character with that code
/// point, or `None` where the number is no Unicode scalar value.
#[verifier::external_body]
pub(crate) fn char_from_code(v: u32) -> (r: Option<char>)
    ensures
        r == (if is_scalar(v) { Some(v as char) } else { None::<char> }),
{
    char::from_u32(v)
}

} // verus!
