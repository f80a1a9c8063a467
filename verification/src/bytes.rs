//! Fixed-width integer assembly from wire bytes (big- and little-endian,
//! signed reinterpretation), each with its arithmetic definition.
use vstd::prelude::*;

verus! {

/// Big-endian `u16` from two bytes.
pub open spec fn be16(a: u8, b: u8) -> u16 {
    (a as int * 256 + b as int) as u16
}

/// Little-endian `u16` from two bytes.
pub open spec fn le16(a: u8, b: u8) -> u16 {
    be16(b, a)
}

/// Little-endian `u32` from four bytes.
pub open spec fn le32(a: u8, b: u8, c: u8, d: u8) -> u32 {
    (a as int + b as int * 0x100 + c as int * 0x1_0000 + d as int * 0x100_0000) as u32
}

/// Big-endian `u32` from four bytes.
pub open spec fn be32(a: u8, b: u8, c: u8, d: u8) -> u32 {
    le32(d, c, b, a)
}

/// Little-endian `u64` from eight bytes.
pub open spec fn le64(b0: u8, b1: u8, b2: u8, b3: u8, b4: u8, b5: u8, b6: u8, b7: u8) -> u64 {
    (le32(b0, b1, b2, b3) as int + le32(b4, b5, b6, b7) as int * 0x1_0000_0000) as u64
}

/// Two's-complement reinterpretation of a byte.
pub open spec fn as_i8(b: u8) -> i8 {
    if b >= 128 {
        (b as int - 256) as i8
    } else {
        b as i8
    }
}

/// Two's-complement reinterpretation of a `u16`.
pub open spec fn as_i16(v: u16) -> i16 {
    if v >= 0x8000 {
        (v as int - 0x1_0000) as i16
    } else {
        v as i16
    }
}

/// Two's-complement reinterpretation of a `u32`.
pub open spec fn as_i32(v: u32) -> i32 {
    if v >= 0x8000_0000 {
        (v as int - 0x1_0000_0000) as i32
    } else {
        v as i32
    }
}

pub fn be16_of(a: u8, b: u8) -> (r: u16)
    ensures
        r == be16(a, b),
{
    (a as u16) * 256 + (b as u16)
}

pub fn le16_of(a: u8, b: u8) -> (r: u16)
    ensures
        r == le16(a, b),
{
    be16_of(b, a)
}

pub fn le32_of(a: u8, b: u8, c: u8, d: u8) -> (r: u32)
    ensures
        r == le32(a, b, c, d),
{
    (a as u32) + (b as u32) * 0x100 + (c as u32) * 0x1_0000 + (d as u32) * 0x100_0000
}

pub fn be32_of(a: u8, b: u8, c: u8, d: u8) -> (r: u32)
    ensures
        r == be32(a, b, c, d),
{
    le32_of(d, c, b, a)
}

pub fn le64_of(b0: u8, b1: u8, b2: u8, b3: u8, b4: u8, b5: u8, b6: u8, b7: u8) -> (r: u64)
    ensures
        r == le64(b0, b1, b2, b3, b4, b5, b6, b7),
{
    let lo = le32_of(b0, b1, b2, b3) as u64;
    let hi = le32_of(b4, b5, b6, b7) as u64;
    lo + hi * 0x1_0000_0000
}

pub fn i8_of(b: u8) -> (r: i8)
    ensures
        r == as_i8(b),
{
    if b >= 128 {
        (b as i16 - 256) as i8
    } else {
        b as i8
    }
}

pub fn i16_of(v: u16) -> (r: i16)
    ensures
        r == as_i16(v),
{
    if v >= 0x8000 {
        (v as i32 - 0x1_0000) as i16
    } else {
        v as i16
    }
}

pub fn i32_of(v: u32) -> (r: i32)
    ensures
        r == as_i32(v),
{
    if v >= 0x8000_0000 {
        (v as i64 - 0x1_0000_0000) as i32
    } else {
        v as i32
    }
}

} // verus!
