//! Fixed-width integers as they appear on the wire.
use byteorder::{BigEndian, ByteOrder, LittleEndian};
use vstd::prelude::*;

verus! {

/// The value of the first two bytes of `b` read most significant byte first.
pub open spec fn be_u16_value(b: Seq<u8>) -> int {
    b[0] * 256 + b[1]
}

/// The value of the first three bytes of `b` read most significant byte first.
pub open spec fn be_u24_value(b: Seq<u8>) -> int {
    b[0] * 65536 + b[1] * 256 + b[2]
}

/// The value of the first two bytes of `b` read least significant byte first.
pub open spec fn le_u16_value(b: Seq<u8>) -> int {
    b[0] + b[1] * 256
}

/// `byteorder`'s `BigEndian::read_u16`: the first two bytes of `buf` as a
/// big-endian number. The crate panics on a shorter buffer, which `requires`
/// leaves out.
#[verifier::external_body]
pub(crate) fn read_be_u16(buf: &[u8]) -> (r: u16)
    requires
        buf@.len() >= 2,
    ensures
        r == be_u16_value(buf@),
{
    BigEndian::read_u16(buf)
}

/// `byteorder`'s `BigEndian::read_u24`: the first three bytes of `buf` as a
/// big-endian number. The crate panics on a shorter buffer, which `requires`
/// leaves out.
#[verifier::external_body]
pub(crate) fn read_be_u24(buf: &[u8]) -> (r: u32)
    requires
        buf@.len() >= 3,
    ensures
        r == be_u24_value(buf@),
{
    BigEndian::read_u24(buf)
}

/// `byteorder`'s `LittleEndian::read_u16`: the first two bytes of `buf` as a
/// little-endian number. The crate panics on a shorter buffer, which
/// `requires` leaves out.
#[verifier::external_body]
pub(crate) fn read_le_u16(buf: &[u8]) -> (r: u16)
    requires
        buf@.len() >= 2,
    ensures
        r == le_u16_value(buf@),
{
    LittleEndian::read_u16(buf)
}

} // verus!
