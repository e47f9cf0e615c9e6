//! Arithmetic on bytes and 16-bit addresses.
//!
//! Contracts speak of bytes and addresses as numbers; the executable helpers
//! below compute the same values with shifts and masks.

use vstd::prelude::*;

verus! {

/// The 16-bit value whose low byte is `lo` and whose high byte is `hi`.
pub open spec fn word(lo: u8, hi: u8) -> u16 {
    (hi as int * 256 + lo as int) as u16
}

/// The low byte of `w`.
pub open spec fn low_byte(w: u16) -> u8 {
    (w % 256) as u8
}

/// The high byte of `w`.
pub open spec fn high_byte(w: u16) -> u8 {
    (w / 256) as u8
}

/// Whether two addresses lie in different 256-byte pages.
pub open spec fn page_crossed(from: u16, to: u16) -> bool {
    from / 256 != to / 256
}

/// A byte read as a two's-complement number.
pub open spec fn signed(value: u8) -> int {
    if value < 128 {
        value as int
    } else {
        value as int - 256
    }
}

/// The address `offset` bytes away from `addr`, in either direction,
/// wrapping around the 64 KiB address space.
pub open spec fn displaced(addr: u16, offset: int) -> u16
    recommends
        -128 <= offset <= 127,
{
    let target = addr as int + offset;
    if target < 0 {
        (target + 0x1_0000) as u16
    } else if target > 0xffff {
        (target - 0x1_0000) as u16
    } else {
        target as u16
    }
}

/// The bitwise complement of a byte.
pub open spec fn complement(value: u8) -> u8 {
    (255 - value) as u8
}

/// Joins two bytes into a 16-bit value, low byte first.
pub fn make_word(lo: u8, hi: u8) -> (w: u16)
    ensures
        w == word(lo, hi),
{
    let w: u16 = ((hi as u16) << 8) | (lo as u16);
    assert(((hi as u16) << 8) | (lo as u16) == (hi as u16) * 256 + (lo as u16)) by (bit_vector);
    w
}

/// The high byte of a 16-bit value.
pub fn hi_byte(w: u16) -> (b: u8)
    ensures
        b == high_byte(w),
{
    let b: u8 = (w >> 8) as u8;
    assert((w >> 8) == w / 256) by (bit_vector);
    b
}

/// The low byte of a 16-bit value.
pub fn lo_byte(w: u16) -> (b: u8)
    ensures
        b == low_byte(w),
{
    let m: u16 = w & 0xff;
    assert((w & 0xff) == w % 256) by (bit_vector);
    m as u8
}

/// Tells whether `from` and `to` lie in different pages.
pub fn crosses_page(from: u16, to: u16) -> (crossed: bool)
    ensures
        crossed == page_crossed(from, to),
{
    let a: u16 = from & 0xff00;
    let b: u16 = to & 0xff00;
    assert(((from & 0xff00) != (to & 0xff00)) == (from / 256 != to / 256)) by (bit_vector);
    a != b
}

/// Reads a byte as a signed displacement.
pub fn to_signed(value: u8) -> (offset: i8)
    ensures
        offset as int == signed(value),
{
    let offset: i8 = value as i8;
    assert(value < 128 ==> (value as i8) == value) by (bit_vector);
    assert(value >= 128 ==> (value as i8) == value - 256) by (bit_vector);
    offset
}

/// Moves an address by a signed displacement, wrapping around the address space.
pub fn displace(addr: u16, offset: i8) -> (target: u16)
    ensures
        target == displaced(addr, offset as int),
{
    addr.wrapping_add_signed(offset as i16)
}

/// Complements every bit of a byte.
pub fn invert(value: u8) -> (inverted: u8)
    ensures
        inverted == complement(value),
{
    let inverted: u8 = !value;
    assert(!value == 255 - value) by (bit_vector);
    inverted
}

} // verus!
