//! Big-endian scalar decoding and mask tests.

use vstd::prelude::*;

verus! {

/// The unsigned 16-bit value of two big-endian bytes.
pub open spec fn be_u16(b0: u8, b1: u8) -> u16 {
    (b0 as int * 0x100 + b1 as int) as u16
}

/// The unsigned 32-bit value of four big-endian bytes.
pub open spec fn be_u32(b0: u8, b1: u8, b2: u8, b3: u8) -> u32 {
    (b0 as int * 0x100_0000 + b1 as int * 0x1_0000 + b2 as int * 0x100 + b3 as int) as u32
}

/// The signed 32-bit value of four big-endian bytes, in two's complement.
pub open spec fn be_i32(b0: u8, b1: u8, b2: u8, b3: u8) -> i32 {
    let u = be_u32(b0, b1, b2, b3) as int;
    (if u >= 0x8000_0000 { u - 0x1_0000_0000 } else { u }) as i32
}

/// The signed 64-bit value of eight big-endian bytes, in two's complement.
pub open spec fn be_i64(b: Seq<u8>) -> i64 {
    let u = be_u32(b[0], b[1], b[2], b[3]) as int * 0x1_0000_0000 + be_u32(b[4], b[5], b[6], b[7]) as int;
    (if u >= 0x8000_0000_0000_0000 { u - 0x1_0000_0000_0000_0000 } else { u }) as i64
}

/// Create a new u16 from two big-endian bytes
pub fn to_u16(bytes: &[u8]) -> (r: u16)
    requires
        bytes@.len() == 2,
    ensures
        r == be_u16(bytes@[0], bytes@[1]),
{
    bytes[0] as u16 * 0x100 + bytes[1] as u16
}

/// Create a new u32 from four big-endian bytes
pub fn to_u32(bytes: &[u8]) -> (r: u32)
    requires
        bytes@.len() == 4,
    ensures
        r == be_u32(bytes@[0], bytes@[1], bytes@[2], bytes@[3]),
{
    bytes[0] as u32 * 0x100_0000 + bytes[1] as u32 * 0x1_0000 + bytes[2] as u32 * 0x100
        + bytes[3] as u32
}

/// Create a new i32 from four big-endian bytes
pub fn to_i32(bytes: &[u8]) -> (r: i32)
    requires
        bytes@.len() == 4,
    ensures
        r == be_i32(bytes@[0], bytes@[1], bytes@[2], bytes@[3]),
{
    let u = to_u32(bytes);
    if u >= 0x8000_0000 {
        i32::MIN + (u - 0x8000_0000) as i32
    } else {
        u as i32
    }
}

/// Create a new i64 from eight big-endian bytes
pub fn to_i64(bytes: &[u8]) -> (r: i64)
    requires
        bytes@.len() == 8,
    ensures
        r == be_i64(bytes@),
{
    let hi = bytes[0] as u64 * 0x100_0000 + bytes[1] as u64 * 0x1_0000 + bytes[2] as u64 * 0x100
        + bytes[3] as u64;
    let lo = bytes[4] as u64 * 0x100_0000 + bytes[5] as u64 * 0x1_0000 + bytes[6] as u64 * 0x100
        + bytes[7] as u64;
    let u = hi * 0x1_0000_0000 + lo;
    if u >= 0x8000_0000_0000_0000 {
        i64::MIN + (u - 0x8000_0000_0000_0000) as i64
    } else {
        u as i64
    }
}

/// Checks if every bit of `bitmask` is set in `value`
pub fn bitmask_matches(value: u16, bitmask: u16) -> (r: bool)
    ensures
        r == (value & bitmask == bitmask),
{
    value & bitmask == bitmask
}

} // verus!
