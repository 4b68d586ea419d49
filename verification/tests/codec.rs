//! Tests of the pure decoding layers: calibration parsing, raw-measurement
//! assembly, and the fixed-point temperature compensation.

use bme280::calibration::{
    parse_temperature, parse_pressure, parse_humidity, parse_compensation,
    CompTemperature, CompPressure, CompHumidity, CompensationData,
};
use bme280::compensation::{calc_temperature, calc_temperature_checked};
use bme280::measurement::{raw20_from_be_bytes, raw16_from_be_bytes, assemble_env_data, EnvData};

#[test]
fn new_coefficient_sets_are_zero() {
    let t = CompTemperature::new();
    assert_eq!((t.t1, t.t2, t.t3), (0, 0, 0));
    let p = CompPressure::new();
    assert_eq!((p.p1, p.p2, p.p3, p.p4, p.p5), (0, 0, 0, 0, 0));
    assert_eq!((p.p6, p.p7, p.p8, p.p9), (0, 0, 0, 0));
    let h = CompHumidity::new();
    assert_eq!((h.h1, h.h2, h.h3, h.h4, h.h5, h.h6), (0, 0, 0, 0, 0, 0));
    let c = CompensationData::new();
    assert_eq!(c.temperature.t1, 0);
    assert_eq!(c.pressure.p9, 0);
    assert_eq!(c.humidity.h6, 0);
    let e = EnvData::new();
    assert_eq!((e.pressure, e.temperature, e.humidity), (0, 0, 0));
}

#[test]
fn parse_temperature_little_endian() {
    // t1 = 0x6B70 = 27504, t2 = 0x6743 = 26435, t3 = 0xFC18 = -1000
    let b = [0x70, 0x6B, 0x43, 0x67, 0x18, 0xFC];
    let t = parse_temperature(&b);
    assert_eq!(t.t1, 27504);
    assert_eq!(t.t2, 26435);
    assert_eq!(t.t3, -1000);
}

#[test]
fn parse_temperature_is_deterministic() {
    let b = [0x01, 0x82, 0xFF, 0x7F, 0x00, 0x80];
    let once = parse_temperature(&b);
    let twice = parse_temperature(&b);
    assert_eq!(once, twice);
    assert_eq!(once.t1, 0x8201);
    assert_eq!(once.t2, i16::MAX);
    assert_eq!(once.t3, i16::MIN);
}

#[test]
fn parse_temperature_coefficients_are_isolated() {
    // Two blocks that agree only on bytes 0..2 decode the same t1.
    let a = [0x70, 0x6B, 0x43, 0x67, 0x18, 0xFC];
    let b = [0x70, 0x6B, 0x00, 0x11, 0x22, 0x33];
    let ta = parse_temperature(&a);
    let tb = parse_temperature(&b);
    assert_eq!(ta.t1, tb.t1);
    assert_ne!(ta.t2, tb.t2);
    assert_ne!(ta.t3, tb.t3);
}

#[test]
fn parse_pressure_little_endian() {
    let b = [
        0x8E, 0x6D, // p1 = 0x6D8E = 28046
        0x70, 0xE7, // p2 = 0xE770 = -6288
        0xE8, 0x0C, // p3 = 0x0CE8 = 3304
        0x46, 0x1F, // p4 = 0x1F46 = 8006
        0xB9, 0xFF, // p5 = 0xFFB9 = -71
        0xF9, 0xFF, // p6 = 0xFFF9 = -7
        0xAC, 0x26, // p7 = 0x26AC = 9900
        0x58, 0xD6, // p8 = 0xD658 = -10664
        0xD0, 0x10, // p9 = 0x10D0 = 4304
    ];
    let p = parse_pressure(&b);
    assert_eq!(p.p1, 28046);
    assert_eq!(p.p2, -6288);
    assert_eq!(p.p3, 3304);
    assert_eq!(p.p4, 8006);
    assert_eq!(p.p5, -71);
    assert_eq!(p.p6, -7);
    assert_eq!(p.p7, 9900);
    assert_eq!(p.p8, -10664);
    assert_eq!(p.p9, 4304);
}

#[test]
fn parse_humidity_nibble_packing() {
    // Combined block: high byte 0xA1, then the seven low-block bytes.
    let b = [0x4B, 0x61, 0x01, 0x00, 0x14, 0x2F, 0x03, 0x1E];
    let h = parse_humidity(&b);
    assert_eq!(h.h1, 75);
    assert_eq!(h.h2, 0x0161); // = 353
    assert_eq!(h.h3, 0);
    // h4 = (0x14 << 4) | (0x2F & 0x0F) = 0x14F
    assert_eq!(h.h4, 0x14F);
    // h5 = (0x2F >> 4) | (0x03 << 4) = 0x32
    assert_eq!(h.h5, 0x32);
    assert_eq!(h.h6, 30);
}

#[test]
fn parse_humidity_signed_fields() {
    let b = [0x00, 0xFF, 0xFF, 0x00, 0x00, 0xF0, 0xFF, 0x85];
    let h = parse_humidity(&b);
    assert_eq!(h.h2, -1); // 0xFFFF
    assert_eq!(h.h4, 0); // (0x00 << 4) | (0xF0 & 0x0F): the low nibble of 0xF0 is 0
    assert_eq!(h.h5, 0xFFF); // (0xF0 >> 4) | (0xFF << 4): a 12-bit value, never negative
    assert_eq!(h.h6, -123); // 0x85
}

#[test]
fn nibble_split_round_trips_the_shared_byte() {
    // Byte 5 of the humidity block feeds one nibble to h4 and one to h5;
    // recombining those nibbles must reproduce the byte exactly.
    for b5 in [0x00u8, 0x0F, 0xA5, 0xCD, 0xF0, 0xFF] {
        let b = [0x00, 0x00, 0x00, 0x00, 0xAB, b5, 0xEF, 0x00];
        let h = parse_humidity(&b);
        let lo = (h.h4 as u16) & 0x0F;
        let hi = ((h.h5 as u16) & 0x0F) << 4;
        assert_eq!((lo | hi) as u8, b5);
    }
}

#[test]
fn parse_compensation_combines_all_three_blocks() {
    let t = [0x70, 0x6B, 0x43, 0x67, 0x18, 0xFC];
    let p = [0u8; 18];
    let h = [0x4B, 0x61, 0x01, 0x00, 0x14, 0x2F, 0x03, 0x1E];
    let c = parse_compensation(&t, &p, &h);
    assert_eq!(c.temperature.t1, 27504);
    assert_eq!(c.pressure.p1, 0);
    assert_eq!(c.humidity.h1, 75);
}

#[test]
fn assembled_pressure_is_shifted_right_four_bits() {
    assert_eq!(raw20_from_be_bytes(0x55, 0x55, 0x50), 0x555550 >> 4);
    assert_eq!(raw20_from_be_bytes(0xFF, 0xFF, 0xFF), 0xFFFFF);
    assert_eq!(raw20_from_be_bytes(0x00, 0x00, 0x0F), 0);
}

#[test]
fn assembled_humidity_is_plain_big_endian() {
    assert_eq!(raw16_from_be_bytes(0x12, 0x34), 0x1234);
    assert_eq!(raw16_from_be_bytes(0xFF, 0xFF), 0xFFFF);
}

#[test]
fn assemble_env_data_covers_all_three_quantities() {
    let press = [0x55, 0x55, 0x50];
    let temp = [0x7E, 0xED, 0x00];
    let hum = [0x12, 0x34];
    let e = assemble_env_data(&press, &temp, &hum);
    assert_eq!(e.pressure, 349525);
    assert_eq!(e.temperature, 519888); // 0x7EED00 >> 4
    assert_eq!(e.humidity, 4660);
}

#[test]
fn calc_temperature_matches_datasheet_example() {
    let compt = CompTemperature { t1: 27504, t2: 26435, t3: -1000 };
    let centi = calc_temperature(compt, 519888);
    assert_eq!(centi, 2508);
    assert_eq!((centi as f32) / 100.0_f32, 25.08_f32);
}

#[test]
fn calc_temperature_is_deterministic() {
    let compt = CompTemperature { t1: 27504, t2: 26435, t3: -1000 };
    let once = calc_temperature(compt, 519888);
    let twice = calc_temperature(compt, 519888);
    assert_eq!(once, twice);
}

#[test]
fn calc_temperature_zero_input_is_defined() {
    // Raw value 0 with all-zero coefficients: defined, non-crashing result.
    let compt = CompTemperature { t1: 0, t2: 0, t3: 0 };
    assert_eq!(calc_temperature(compt, 0), 0);
}

#[test]
fn calc_temperature_checked_agrees_in_range() {
    let compt = CompTemperature { t1: 27504, t2: 26435, t3: -1000 };
    assert_eq!(calc_temperature_checked(compt, 519888), Some(2508));
    assert_eq!(calc_temperature_checked(compt, 0), Some(calc_temperature(compt, 0)));
}

#[test]
fn calc_temperature_checked_rejects_overflowing_input() {
    // (i32::MAX >> 3) * 32767 is far beyond 32 bits.
    let compt = CompTemperature { t1: 0, t2: i16::MAX, t3: 0 };
    assert_eq!(calc_temperature_checked(compt, i32::MAX), None);
}
