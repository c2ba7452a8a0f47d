//! Little-endian integers in a byte buffer.

use vstd::prelude::*;

verus! {

/// The 16-bit little-endian integer at offset `at`.
pub open spec fn le16(raw: Seq<u8>, at: int) -> int {
    raw[at] as int + 0x100 * (raw[at + 1] as int)
}

/// The 32-bit little-endian integer at offset `at`.
pub open spec fn le32(raw: Seq<u8>, at: int) -> int {
    raw[at] as int + 0x100 * (raw[at + 1] as int) + 0x1_0000 * (raw[at + 2] as int) + 0x100_0000
        * (raw[at + 3] as int)
}

/// Reads the 16-bit little-endian integer at offset `at`.
pub(crate) fn read_u16_le(raw: &[u8], at: usize) -> (value: u16)
    requires
        at + 2 <= raw@.len(),
    ensures
        value == le16(raw@, at as int),
{
    let b0: u16 = raw[at] as u16;
    let b1: u16 = raw[at + 1] as u16;
    b0 + 0x100 * b1
}

/// Reads the 32-bit little-endian integer at offset `at`.
pub(crate) fn read_u32_le(raw: &[u8], at: usize) -> (value: u32)
    requires
        at + 4 <= raw@.len(),
    ensures
        value == le32(raw@, at as int),
{
    let b0: u32 = raw[at] as u32;
    let b1: u32 = raw[at + 1] as u32;
    let b2: u32 = raw[at + 2] as u32;
    let b3: u32 = raw[at + 3] as u32;
    b0 + 0x100 * b1 + 0x1_0000 * b2 + 0x100_0000 * b3
}

} // verus!
