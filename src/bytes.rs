//! Big-endian integers read from payload bytes.

use vstd::prelude::*;

verus! {

/// The value of two bytes, most significant first.
pub open spec fn be2(s: Seq<u8>) -> int {
    s[0] * 0x100 + s[1]
}

/// The value of four bytes, most significant first.
pub open spec fn be4(s: Seq<u8>) -> int {
    s[0] * 0x100_0000 + s[1] * 0x1_0000 + s[2] * 0x100 + s[3]
}

/// The value of eight bytes, most significant first.
pub open spec fn be8(s: Seq<u8>) -> int {
    be4(s.subrange(0, 4)) * 0x1_0000_0000 + be4(s.subrange(4, 8))
}

/// Reads the two bytes of `data` from `at`, most significant first.
pub fn read_be_u16(data: &[u8], at: usize) -> (r: u16)
    requires
        at + 2 <= data@.len(),
    ensures
        r == be2(data@.subrange(at as int, at + 2)),
{
    data[at] as u16 * 0x100 + data[at + 1] as u16
}

/// Reads the four bytes of `data`, most significant first.
pub fn read_be_u32(data: &[u8]) -> (r: u32)
    requires
        data@.len() == 4,
    ensures
        r == be4(data@),
{
    data[0] as u32 * 0x100_0000 + data[1] as u32 * 0x1_0000 + data[2] as u32 * 0x100
        + data[3] as u32
}

/// Reads the eight bytes of `data`, most significant first.
pub fn read_be_u64(data: &[u8]) -> (r: u64)
    requires
        data@.len() == 8,
    ensures
        r == be8(data@),
{
    let hi = data[0] as u64 * 0x100_0000 + data[1] as u64 * 0x1_0000 + data[2] as u64 * 0x100
        + data[3] as u64;
    let lo = data[4] as u64 * 0x100_0000 + data[5] as u64 * 0x1_0000 + data[6] as u64 * 0x100
        + data[7] as u64;
    assert(hi == be4(data@.subrange(0, 4)));
    assert(lo == be4(data@.subrange(4, 8)));
    hi * 0x1_0000_0000 + lo
}

} // verus!
