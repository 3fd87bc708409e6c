pub mod model;
pub mod texture;

use vstd::prelude::*;

verus! {

/// The 16-bit little-endian integer at offset `i`.
pub open spec fn u16_le_at(b: Seq<u8>, i: int) -> u16 {
    (b[i] + b[i + 1] * 0x100) as u16
}

/// The 32-bit little-endian integer at offset `i`.
pub open spec fn u32_le_at(b: Seq<u8>, i: int) -> u32 {
    (b[i] + b[i + 1] * 0x100 + b[i + 2] * 0x10000 + b[i + 3] * 0x1000000) as u32
}

/// Relies on byteorder::LittleEndian::read_u16: the first two bytes of the
/// given slice, little endian.
#[verifier::external_body]
pub(crate) fn read_u16_le(b: &Vec<u8>, off: usize) -> (r: u16)
    requires
        off + 2 <= b@.len(),
    ensures
        r == u16_le_at(b@, off as int),
{
    <byteorder::LittleEndian as byteorder::ByteOrder>::read_u16(&b[off..off + 2])
}

/// Relies on byteorder::LittleEndian::read_u32: the first four bytes of the
/// given slice, little endian.
#[verifier::external_body]
pub(crate) fn read_u32_le(b: &Vec<u8>, off: usize) -> (r: u32)
    requires
        off + 4 <= b@.len(),
    ensures
        r == u32_le_at(b@, off as int),
{
    <byteorder::LittleEndian as byteorder::ByteOrder>::read_u32(&b[off..off + 4])
}

} // verus!
