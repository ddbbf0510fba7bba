//! Little-endian reads from byte buffers holding firmware tables and
//! descriptors.
use vstd::prelude::*;

verus! {

/// The little-endian 16-bit value at `off`.
pub open spec fn le16(s: Seq<u8>, off: int) -> int {
    s[off] as int + 0x100 * s[off + 1] as int
}

/// The little-endian 32-bit value at `off`.
pub open spec fn le32(s: Seq<u8>, off: int) -> int {
    le16(s, off) + 0x1_0000 * le16(s, off + 2)
}

/// The little-endian 64-bit value at `off`.
pub open spec fn le64(s: Seq<u8>, off: int) -> int {
    le32(s, off) + 0x1_0000_0000 * le32(s, off + 4)
}

pub fn read_u16_le(data: &[u8], off: usize) -> (r: u16)
    requires
        off + 2 <= data@.len(),
    ensures
        r == le16(data@, off as int),
{
    data[off] as u16 + (data[off + 1] as u16) * 0x100
}

pub fn read_u32_le(data: &[u8], off: usize) -> (r: u32)
    requires
        off + 4 <= data@.len(),
    ensures
        r == le32(data@, off as int),
{
    let _n = data.len();
    let lo = read_u16_le(data, off);
    let hi = read_u16_le(data, off + 2);
    lo as u32 + (hi as u32) * 0x1_0000
}

pub fn read_u64_le(data: &[u8], off: usize) -> (r: u64)
    requires
        off + 8 <= data@.len(),
    ensures
        r == le64(data@, off as int),
{
    let _n = data.len();
    let lo = read_u32_le(data, off);
    let hi = read_u32_le(data, off + 4);
    lo as u64 + (hi as u64) * 0x1_0000_0000
}

} // verus!
