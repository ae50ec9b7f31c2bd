//! Little-endian integers in byte buffers.

use vstd::prelude::*;

verus! {

/// The little-endian `u16` at `off` in `b`.
pub open spec fn le16(b: Seq<u8>, off: int) -> u16 {
    (b[off] as int + 256 * b[off + 1] as int) as u16
}

/// The little-endian `u32` at `off` in `b`.
pub open spec fn le32(b: Seq<u8>, off: int) -> u32 {
    (b[off] as int + 256 * b[off + 1] as int + 65536 * b[off + 2] as int + 16777216 * b[
        off + 3
    ] as int) as u32
}

/// The `u32` whose little-endian bytes are `b0`, `b1`, `b2`, `b3`.
pub open spec fn u32_from_bytes(b0: u8, b1: u8, b2: u8, b3: u8) -> u32 {
    (b0 as int + 256 * b1 as int + 65536 * b2 as int + 16777216 * b3 as int) as u32
}

/// Combines four bytes, least significant first, into a `u32`.
pub fn combine_le32(b0: u8, b1: u8, b2: u8, b3: u8) -> (v: u32)
    ensures
        v == u32_from_bytes(b0, b1, b2, b3),
        v as int == b0 as int + 256 * b1 as int + 65536 * b2 as int + 16777216 * b3 as int,
{
    let v = (b0 as u32) | ((b1 as u32) << 8) | ((b2 as u32) << 16) | ((b3 as u32) << 24);
    assert(v == (b0 as u32) + 256 * (b1 as u32) + 65536 * (b2 as u32) + 16777216 * (b3 as u32))
        by (bit_vector)
        requires
            v == (b0 as u32) | ((b1 as u32) << 8) | ((b2 as u32) << 16) | ((b3 as u32) << 24),
    ;
    v
}

/// Reads the little-endian `u16` at `off`.
pub fn read_le16(b: &[u8], off: usize) -> (v: u16)
    requires
        off + 2 <= b@.len(),
    ensures
        v == le16(b@, off as int),
        v as int == b@[off as int] as int + 256 * b@[off + 1] as int,
{
    let lo = b[off];
    let hi = b[off + 1];
    let v = (lo as u16) | ((hi as u16) << 8);
    assert(v == (lo as u16) + 256 * (hi as u16)) by (bit_vector)
        requires
            v == (lo as u16) | ((hi as u16) << 8),
    ;
    v
}

/// Reads the little-endian `u32` at `off`.
pub fn read_le32(b: &[u8], off: usize) -> (v: u32)
    requires
        off + 4 <= b@.len(),
    ensures
        v == le32(b@, off as int),
{
    combine_le32(b[off], b[off + 1], b[off + 2], b[off + 3])
}

} // verus!
