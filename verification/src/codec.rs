//! Little-endian decoding of the fixed-width integers that configuration
//! payloads carry.

use vstd::prelude::*;

verus! {

/// The unsigned integer encoded little-endian by two bytes.
pub open spec fn le_bytes_to_u16(s: Seq<u8>) -> int
    recommends
        s.len() == 2,
{
    s[0] + s[1] * 0x100
}

/// The unsigned integer encoded little-endian by eight bytes.
pub open spec fn le_bytes_to_u64(s: Seq<u8>) -> int
    recommends
        s.len() == 8,
{
    s[0] + s[1] * 0x100 + s[2] * 0x1_0000 + s[3] * 0x100_0000 + s[4] * 0x1_0000_0000
        + s[5] * 0x100_0000_0000 + s[6] * 0x1_0000_0000_0000 + s[7] * 0x100_0000_0000_0000
}

/// Decodes a two-byte little-endian unsigned integer.
pub fn u16_from_le(v: &[u8]) -> (r: u16)
    requires
        v@.len() == 2,
    ensures
        r == le_bytes_to_u16(v@),
{
    (v[0] as u16) + (v[1] as u16) * 0x100
}

/// Decodes an eight-byte little-endian unsigned integer.
pub fn u64_from_le(v: &[u8]) -> (r: u64)
    requires
        v@.len() == 8,
    ensures
        r == le_bytes_to_u64(v@),
{
    (v[0] as u64) + (v[1] as u64) * 0x100 + (v[2] as u64) * 0x1_0000 + (v[3] as u64) * 0x100_0000
        + (v[4] as u64) * 0x1_0000_0000 + (v[5] as u64) * 0x100_0000_0000
        + (v[6] as u64) * 0x1_0000_0000_0000 + (v[7] as u64) * 0x100_0000_0000_0000
}

} // verus!
