//! Byte-level decoding primitives shared by the calibration parser and the
//! raw-measurement assembler: little-endian pairing, big-endian assembly,
//! and two's-complement reinterpretation of unsigned fields.

use vstd::prelude::*;

verus! {

/// A 16-bit value from a little-endian byte pair: `lo` is the low byte,
/// `hi` the high byte.
pub open spec fn spec_le_u16(lo: u8, hi: u8) -> u16 {
    (lo as u16) | ((hi as u16) << 8)
}

/// The bits of a `u16` reinterpreted as a two's-complement `i16`.
pub open spec fn spec_i16_from_u16(v: u16) -> i16 {
    if v < 0x8000 {
        v as i16
    } else {
        (v as int - 0x10000) as i16
    }
}

/// The bits of a `u8` reinterpreted as a two's-complement `i8`.
pub open spec fn spec_i8_from_u8(v: u8) -> i8 {
    if v < 0x80 {
        v as i8
    } else {
        (v as int - 0x100) as i8
    }
}

/// A 24-bit value from three big-endian bytes: `b0` is the most significant.
pub open spec fn spec_be24(b0: u8, b1: u8, b2: u8) -> u32 {
    ((b0 as u32) << 16) | ((b1 as u32) << 8) | (b2 as u32)
}

/// A 16-bit value from two big-endian bytes, widened to `u32`.
pub open spec fn spec_be16(b0: u8, b1: u8) -> u32 {
    ((b0 as u32) << 8) | (b1 as u32)
}

pub fn le_u16(lo: u8, hi: u8) -> (r: u16)
    ensures
        r == spec_le_u16(lo, hi),
{
    (lo as u16) | ((hi as u16) << 8)
}

pub fn i16_from_u16(v: u16) -> (r: i16)
    ensures
        r == spec_i16_from_u16(v),
{
    if v < 0x8000 {
        v as i16
    } else {
        ((v as i32) - 0x10000) as i16
    }
}

pub fn i8_from_u8(v: u8) -> (r: i8)
    ensures
        r == spec_i8_from_u8(v),
{
    if v < 0x80 {
        v as i8
    } else {
        ((v as i16) - 0x100) as i8
    }
}

pub fn be24(b0: u8, b1: u8, b2: u8) -> (r: u32)
    ensures
        r == spec_be24(b0, b1, b2),
        r <= 0xFFFFFF,
{
    proof {
        assert(spec_be24(b0, b1, b2) <= 0xFFFFFF) by (bit_vector);
    }
    ((b0 as u32) << 16) | ((b1 as u32) << 8) | (b2 as u32)
}

pub fn be16(b0: u8, b1: u8) -> (r: u32)
    ensures
        r == spec_be16(b0, b1),
        r <= 0xFFFF,
{
    proof {
        assert(spec_be16(b0, b1) <= 0xFFFF) by (bit_vector);
    }
    ((b0 as u32) << 8) | (b1 as u32)
}

} // verus!
