use vstd::prelude::*;

verus! {

/// The big-endian integer held by the four bytes of `b` starting at `off`.
pub open spec fn be_u32(b: Seq<u8>, off: int) -> u32 {
    ((b[off] as u32) << 24u32) | ((b[off + 1] as u32) << 16u32) | ((b[off + 2] as u32) << 8u32)
        | (b[off + 3] as u32)
}

/// The big-endian integer held by the two bytes of `b` starting at `off`.
pub open spec fn be_u16(b: Seq<u8>, off: int) -> u16 {
    ((b[off] as u16) << 8u16) | (b[off + 1] as u16)
}

/// Reads the big-endian `u32` at `off`.
pub fn read_u32_be(b: &[u8], off: usize) -> (r: u32)
    requires
        off + 4 <= b@.len(),
    ensures
        r == be_u32(b@, off as int),
{
    ((b[off] as u32) << 24u32) | ((b[off + 1] as u32) << 16u32) | ((b[off + 2] as u32) << 8u32)
        | (b[off + 3] as u32)
}

/// Reads the big-endian `u16` at `off`.
pub fn read_u16_be(b: &[u8], off: usize) -> (r: u16)
    requires
        off + 2 <= b@.len(),
    ensures
        r == be_u16(b@, off as int),
{
    ((b[off] as u16) << 8u16) | (b[off + 1] as u16)
}

} // verus!
