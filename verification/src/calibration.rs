//! Calibration parser: decodes the raw calibration bytes read from the
//! sensor into the three typed coefficient sets, following the data sheet's
//! byte order — little-endian pairwise for every multi-byte field, with the
//! two nibble-packed humidity coefficients decoded by an explicit mask/shift
//! pair.

use vstd::prelude::*;
use crate::bits::{
    spec_le_u16, spec_i16_from_u16, spec_i8_from_u8, le_u16, i16_from_u16, i8_from_u8,
};

verus! {

/// Temperature compensation coefficients "dig_T1".."dig_T3".
#[derive(Clone, Copy, Debug, PartialEq, Eq, Structural)]
pub struct CompTemperature {
    pub t1: u16,
    pub t2: i16,
    pub t3: i16,
}

impl CompTemperature {
    /// An all-zero coefficient set, the state before a calibration read.
    pub fn new() -> (r: Self)
        ensures
            r == (CompTemperature { t1: 0, t2: 0, t3: 0 }),
    {
        Self { t1: 0, t2: 0, t3: 0 }
    }
}

/// Pressure compensation coefficients "dig_P1".."dig_P9". Parsed and stored;
/// no pressure conversion consumes them yet.
#[derive(Clone, Copy, Debug, PartialEq, Eq, Structural)]
pub struct CompPressure {
    pub p1: u16,
    pub p2: i16,
    pub p3: i16,
    pub p4: i16,
    pub p5: i16,
    pub p6: i16,
    pub p7: i16,
    pub p8: i16,
    pub p9: i16,
}

impl CompPressure {
    /// An all-zero coefficient set, the state before a calibration read.
    pub fn new() -> (r: Self)
        ensures
            r == (CompPressure { p1: 0, p2: 0, p3: 0, p4: 0, p5: 0, p6: 0, p7: 0, p8: 0, p9: 0 }),
    {
        Self { p1: 0, p2: 0, p3: 0, p4: 0, p5: 0, p6: 0, p7: 0, p8: 0, p9: 0 }
    }
}

/// Humidity compensation coefficients "dig_H1".."dig_H6". Parsed and stored;
/// no humidity conversion consumes them yet.
#[derive(Clone, Copy, Debug, PartialEq, Eq, Structural)]
pub struct CompHumidity {
    pub h1: u8,
    pub h2: i16,
    pub h3: u8,
    pub h4: i16,
    pub h5: i16,
    pub h6: i8,
}

impl CompHumidity {
    /// An all-zero coefficient set, the state before a calibration read.
    pub fn new() -> (r: Self)
        ensures
            r == (CompHumidity { h1: 0, h2: 0, h3: 0, h4: 0, h5: 0, h6: 0 }),
    {
        Self { h1: 0, h2: 0, h3: 0, h4: 0, h5: 0, h6: 0 }
    }
}

/// The one-time factory calibration of a physical sensor unit: all three
/// coefficient sets together.
#[derive(Clone, Copy, Debug, PartialEq, Eq, Structural)]
pub struct CompensationData {
    pub temperature: CompTemperature,
    pub pressure: CompPressure,
    pub humidity: CompHumidity,
}

impl CompensationData {
    /// An all-zero bundle, the state before a calibration read.
    pub fn new() -> (r: Self)
        ensures
            r.temperature == (CompTemperature { t1: 0, t2: 0, t3: 0 }),
            r.pressure == (CompPressure {
                p1: 0, p2: 0, p3: 0, p4: 0, p5: 0, p6: 0, p7: 0, p8: 0, p9: 0,
            }),
            r.humidity == (CompHumidity { h1: 0, h2: 0, h3: 0, h4: 0, h5: 0, h6: 0 }),
    {
        Self {
            temperature: CompTemperature::new(),
            pressure: CompPressure::new(),
            humidity: CompHumidity::new(),
        }
    }
}

/// "dig_H4" before sign interpretation: byte 4 shifted left four bits,
/// combined with the low nibble of byte 5.
pub open spec fn spec_h4_bits(b4: u8, b5: u8) -> u16 {
    ((b4 as u16) << 4) | ((b5 as u16) & 0x0F)
}

/// "dig_H5" before sign interpretation: the high nibble of byte 5, combined
/// with byte 6 shifted left four bits — bytes 4..=6 here are indices into
/// the eight-byte humidity calibration block, so byte 5 is shared with
/// "dig_H4", each coefficient consuming one of its nibbles.
pub open spec fn spec_h5_bits(b5: u8, b6: u8) -> u16 {
    ((b5 as u16) >> 4) | ((b6 as u16) << 4)
}

/// What the temperature calibration block (6 bytes, 0x88..=0x8D) decodes to.
pub open spec fn spec_parse_temperature(b: Seq<u8>) -> CompTemperature {
    CompTemperature {
        t1: spec_le_u16(b[0], b[1]),
        t2: spec_i16_from_u16(spec_le_u16(b[2], b[3])),
        t3: spec_i16_from_u16(spec_le_u16(b[4], b[5])),
    }
}

/// What the pressure calibration block (18 bytes, 0x8E..=0x9F) decodes to.
pub open spec fn spec_parse_pressure(b: Seq<u8>) -> CompPressure {
    CompPressure {
        p1: spec_le_u16(b[0], b[1]),
        p2: spec_i16_from_u16(spec_le_u16(b[2], b[3])),
        p3: spec_i16_from_u16(spec_le_u16(b[4], b[5])),
        p4: spec_i16_from_u16(spec_le_u16(b[6], b[7])),
        p5: spec_i16_from_u16(spec_le_u16(b[8], b[9])),
        p6: spec_i16_from_u16(spec_le_u16(b[10], b[11])),
        p7: spec_i16_from_u16(spec_le_u16(b[12], b[13])),
        p8: spec_i16_from_u16(spec_le_u16(b[14], b[15])),
        p9: spec_i16_from_u16(spec_le_u16(b[16], b[17])),
    }
}

/// What the humidity calibration bytes decode to. `b` is the high block's
/// single byte (0xA1) followed by the low block's seven bytes (0xE1..=0xE7),
/// eight bytes in all.
pub open spec fn spec_parse_humidity(b: Seq<u8>) -> CompHumidity {
    CompHumidity {
        h1: b[0],
        h2: spec_i16_from_u16(spec_le_u16(b[1], b[2])),
        h3: b[3],
        h4: spec_i16_from_u16(spec_h4_bits(b[4], b[5])),
        h5: spec_i16_from_u16(spec_h5_bits(b[5], b[6])),
        h6: spec_i8_from_u8(b[7]),
    }
}

/// What a full calibration read decodes to: the three blocks side by side.
pub open spec fn spec_parse_compensation(t: Seq<u8>, p: Seq<u8>, h: Seq<u8>) -> CompensationData {
    CompensationData {
        temperature: spec_parse_temperature(t),
        pressure: spec_parse_pressure(p),
        humidity: spec_parse_humidity(h),
    }
}

/// Decode the temperature calibration block.
pub fn parse_temperature(b: &[u8]) -> (r: CompTemperature)
    requires
        b@.len() == 6,
    ensures
        r == spec_parse_temperature(b@),
{
    CompTemperature {
        t1: le_u16(b[0], b[1]),
        t2: i16_from_u16(le_u16(b[2], b[3])),
        t3: i16_from_u16(le_u16(b[4], b[5])),
    }
}

/// Decode the pressure calibration block.
pub fn parse_pressure(b: &[u8]) -> (r: CompPressure)
    requires
        b@.len() == 18,
    ensures
        r == spec_parse_pressure(b@),
{
    CompPressure {
        p1: le_u16(b[0], b[1]),
        p2: i16_from_u16(le_u16(b[2], b[3])),
        p3: i16_from_u16(le_u16(b[4], b[5])),
        p4: i16_from_u16(le_u16(b[6], b[7])),
        p5: i16_from_u16(le_u16(b[8], b[9])),
        p6: i16_from_u16(le_u16(b[10], b[11])),
        p7: i16_from_u16(le_u16(b[12], b[13])),
        p8: i16_from_u16(le_u16(b[14], b[15])),
        p9: i16_from_u16(le_u16(b[16], b[17])),
    }
}

/// Decode the humidity calibration bytes: the high block's byte followed by
/// the low block's seven bytes.
pub fn parse_humidity(b: &[u8]) -> (r: CompHumidity)
    requires
        b@.len() == 8,
    ensures
        r == spec_parse_humidity(b@),
{
    let h4_bits: u16 = ((b[4] as u16) << 4) | ((b[5] as u16) & 0x0F);
    let h5_bits: u16 = ((b[5] as u16) >> 4) | ((b[6] as u16) << 4);
    CompHumidity {
        h1: b[0],
        h2: i16_from_u16(le_u16(b[1], b[2])),
        h3: b[3],
        h4: i16_from_u16(h4_bits),
        h5: i16_from_u16(h5_bits),
        h6: i8_from_u8(b[7]),
    }
}

/// Decode a full calibration read: the temperature block, the pressure
/// block, and the combined humidity bytes.
pub fn parse_compensation(reg_t: &[u8], reg_p: &[u8], reg_h: &[u8]) -> (r: CompensationData)
    requires
        reg_t@.len() == 6,
        reg_p@.len() == 18,
        reg_h@.len() == 8,
    ensures
        r == spec_parse_compensation(reg_t@, reg_p@, reg_h@),
{
    CompensationData {
        temperature: parse_temperature(reg_t),
        pressure: parse_pressure(reg_p),
        humidity: parse_humidity(reg_h),
    }
}

/// Parsing is deterministic: equal calibration bytes decode to equal
/// coefficient bundles.
pub proof fn lemma_parse_deterministic(
    t1: Seq<u8>, p1: Seq<u8>, h1: Seq<u8>,
    t2: Seq<u8>, p2: Seq<u8>, h2: Seq<u8>,
)
    requires
        t1 == t2,
        p1 == p2,
        h1 == h2,
    ensures
        spec_parse_compensation(t1, p1, h1) == spec_parse_compensation(t2, p2, h2),
{
}

/// No temperature coefficient depends on bytes outside its documented slice:
/// two blocks that agree on a coefficient's two bytes decode that
/// coefficient equally.
pub proof fn lemma_temperature_isolation(a: Seq<u8>, b: Seq<u8>)
    requires
        a.len() == 6,
        b.len() == 6,
    ensures
        a.subrange(0, 2) == b.subrange(0, 2)
            ==> spec_parse_temperature(a).t1 == spec_parse_temperature(b).t1,
        a.subrange(2, 4) == b.subrange(2, 4)
            ==> spec_parse_temperature(a).t2 == spec_parse_temperature(b).t2,
        a.subrange(4, 6) == b.subrange(4, 6)
            ==> spec_parse_temperature(a).t3 == spec_parse_temperature(b).t3,
{
    lemma_pairs_agree(a, b, 0);
    lemma_pairs_agree(a, b, 2);
    lemma_pairs_agree(a, b, 4);
}

/// No pressure coefficient depends on bytes outside its documented slice.
pub proof fn lemma_pressure_isolation(a: Seq<u8>, b: Seq<u8>, k: int)
    requires
        a.len() == 18,
        b.len() == 18,
        0 <= k < 9,
        a.subrange(2 * k, 2 * k + 2) == b.subrange(2 * k, 2 * k + 2),
    ensures
        coeff_p(spec_parse_pressure(a), k) == coeff_p(spec_parse_pressure(b), k),
{
    lemma_pairs_agree(a, b, 2 * k);
}

/// The `k`-th pressure coefficient, counted from "dig_P1", with the signed
/// ones widened so that one selector covers all nine.
pub open spec fn coeff_p(p: CompPressure, k: int) -> int {
    if k == 0 { p.p1 as int }
    else if k == 1 { p.p2 as int }
    else if k == 2 { p.p3 as int }
    else if k == 3 { p.p4 as int }
    else if k == 4 { p.p5 as int }
    else if k == 5 { p.p6 as int }
    else if k == 6 { p.p7 as int }
    else if k == 7 { p.p8 as int }
    else { p.p9 as int }
}

/// No humidity coefficient depends on bytes outside its documented slice;
/// "dig_H4" and "dig_H5" each depend only on their two source bytes, which
/// overlap at byte 5.
pub proof fn lemma_humidity_isolation(a: Seq<u8>, b: Seq<u8>)
    requires
        a.len() == 8,
        b.len() == 8,
    ensures
        a[0] == b[0] ==> spec_parse_humidity(a).h1 == spec_parse_humidity(b).h1,
        a.subrange(1, 3) == b.subrange(1, 3)
            ==> spec_parse_humidity(a).h2 == spec_parse_humidity(b).h2,
        a[3] == b[3] ==> spec_parse_humidity(a).h3 == spec_parse_humidity(b).h3,
        a.subrange(4, 6) == b.subrange(4, 6)
            ==> spec_parse_humidity(a).h4 == spec_parse_humidity(b).h4,
        a.subrange(5, 7) == b.subrange(5, 7)
            ==> spec_parse_humidity(a).h5 == spec_parse_humidity(b).h5,
        a[7] == b[7] ==> spec_parse_humidity(a).h6 == spec_parse_humidity(b).h6,
{
    lemma_pairs_agree(a, b, 1);
    lemma_pairs_agree(a, b, 4);
    lemma_pairs_agree(a, b, 5);
}

/// Two sequences that agree on the slice `[i, i + 2)` agree on both bytes
/// of it.
proof fn lemma_pairs_agree(a: Seq<u8>, b: Seq<u8>, i: int)
    requires
        0 <= i,
        i + 2 <= a.len(),
        i + 2 <= b.len(),
    ensures
        a.subrange(i, i + 2) == b.subrange(i, i + 2) ==> a[i] == b[i] && a[i + 1] == b[i + 1],
{
    if a.subrange(i, i + 2) == b.subrange(i, i + 2) {
        assert(a[i] == a.subrange(i, i + 2)[0]);
        assert(a[i + 1] == a.subrange(i, i + 2)[1]);
        assert(b[i] == b.subrange(i, i + 2)[0]);
        assert(b[i + 1] == b.subrange(i, i + 2)[1]);
    }
}

/// Round trip of the nibble split: the shared byte 5 of the humidity
/// calibration block is reproduced exactly by recombining the low nibble of
/// "dig_H4" with the low nibble of "dig_H5" shifted back up.
pub proof fn lemma_nibble_round_trip(b4: u8, b5: u8, b6: u8)
    ensures
        ((
            ((spec_i16_from_u16(spec_h4_bits(b4, b5)) as u16) & 0x0F)
            | (((spec_i16_from_u16(spec_h5_bits(b5, b6)) as u16) & 0x0F) << 4)
        ) as u8) == b5,
{
    assert(((
        ((spec_i16_from_u16(spec_h4_bits(b4, b5)) as u16) & 0x0F)
        | (((spec_i16_from_u16(spec_h5_bits(b5, b6)) as u16) & 0x0F) << 4)
    ) as u8) == b5) by (bit_vector);
}

} // verus!
