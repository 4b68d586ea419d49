//! Raw measurement assembler: decodes the sensor's raw ADC output bytes.
//! Pressure and temperature are 20-bit values left-justified in three
//! big-endian bytes (so the 24-bit value is shifted right four bits);
//! humidity is a plain 16-bit big-endian value.

use vstd::prelude::*;
use crate::bits::{spec_be24, spec_be16, be24, be16};

verus! {

/// One raw environmental sample: the three uncompensated ADC codes of a
/// single measurement read. Created fresh on every read and discarded after
/// compensation.
#[derive(Clone, Copy, Debug, PartialEq, Eq, Structural)]
pub struct EnvData {
    pub pressure: i32,
    pub temperature: i32,
    pub humidity: i32,
}

impl EnvData {
    /// An all-zero sample.
    pub fn new() -> (r: Self)
        ensures
            r == (EnvData { pressure: 0, temperature: 0, humidity: 0 }),
    {
        Self { pressure: 0, temperature: 0, humidity: 0 }
    }
}

/// A 20-bit ADC code from its three big-endian output bytes: the 24-bit
/// value with the four unused low bits shifted away.
pub open spec fn spec_raw20(b0: u8, b1: u8, b2: u8) -> i32 {
    (spec_be24(b0, b1, b2) as i32) >> 4
}

/// A 16-bit ADC code from its two big-endian output bytes, no shift.
pub open spec fn spec_raw16(b0: u8, b1: u8) -> i32 {
    spec_be16(b0, b1) as i32
}

/// What a raw measurement read assembles to: `p` are the pressure bytes,
/// `t` the temperature bytes, `h` the humidity bytes.
pub open spec fn spec_assemble_env_data(p: Seq<u8>, t: Seq<u8>, h: Seq<u8>) -> EnvData {
    EnvData {
        pressure: spec_raw20(p[0], p[1], p[2]),
        temperature: spec_raw20(t[0], t[1], t[2]),
        humidity: spec_raw16(h[0], h[1]),
    }
}

/// Assemble a 20-bit ADC code from three big-endian bytes. The result is
/// non-negative and fits in 20 bits.
pub fn raw20_from_be_bytes(b0: u8, b1: u8, b2: u8) -> (r: i32)
    ensures
        r == spec_raw20(b0, b1, b2),
        0 <= r < 0x100000,
{
    let wide: u32 = be24(b0, b1, b2);
    let r: i32 = (wide as i32) >> 4;
    proof {
        assert(wide <= 0xFFFFFF ==> ((wide as i32) >> 4 == spec_raw20(b0, b1, b2)
            && 0 <= (wide as i32) >> 4 < 0x100000)) by (bit_vector)
            requires
                wide == spec_be24(b0, b1, b2),
        ;
    }
    r
}

/// Assemble a 16-bit ADC code from two big-endian bytes. The result is
/// non-negative and fits in 16 bits.
pub fn raw16_from_be_bytes(b0: u8, b1: u8) -> (r: i32)
    ensures
        r == spec_raw16(b0, b1),
        0 <= r < 0x10000,
{
    let wide: u32 = be16(b0, b1);
    wide as i32
}

/// Assemble a full raw sample from the three output blocks.
pub fn assemble_env_data(reg_press: &[u8], reg_temp: &[u8], reg_hum: &[u8]) -> (r: EnvData)
    requires
        reg_press@.len() == 3,
        reg_temp@.len() == 3,
        reg_hum@.len() == 2,
    ensures
        r == spec_assemble_env_data(reg_press@, reg_temp@, reg_hum@),
{
    EnvData {
        pressure: raw20_from_be_bytes(reg_press[0], reg_press[1], reg_press[2]),
        temperature: raw20_from_be_bytes(reg_temp[0], reg_temp[1], reg_temp[2]),
        humidity: raw16_from_be_bytes(reg_hum[0], reg_hum[1]),
    }
}

} // verus!
