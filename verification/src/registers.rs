//! Register map of the BME280: fixed sensor-design constants giving the base
//! address and length of every register block the driver touches.

use vstd::prelude::*;

verus! {

// Temperature compensation block "dig_T*": 0x88..=0x8D.
pub const BME280_TEMPERATURE_COMP_REG: u8 = 0x88;

pub const BME280_TEMPERATURE_COMP_LEN: usize = 6;

// Pressure compensation block "dig_P*": 0x8E..=0x9F.
pub const BME280_PRESSURE_COMP_REG: u8 = 0x8E;

pub const BME280_PRESSURE_COMP_LEN: usize = 18;

// Humidity compensation high byte "dig_H1": 0xA1.
pub const BME280_HUMIDITY_COMP_REG_HI: u8 = 0xA1;

pub const BME280_HUMIDITY_COMP_HI_LEN: usize = 1;

// Humidity compensation low block "dig_H2".."dig_H6": 0xE1..=0xE7.
pub const BME280_HUMIDITY_COMP_REG_LO: u8 = 0xE1;

pub const BME280_HUMIDITY_COMP_LO_LEN: usize = 7;

// Raw pressure output "press": 0xF7..=0xF9.
pub const BME280_PRESS_REG: u8 = 0xF7;

pub const BME280_PRESS_LEN: usize = 3;

// Raw temperature output "temp": 0xFA..=0xFC.
pub const BME280_TEMP_REG: u8 = 0xFA;

pub const BME280_TEMP_LEN: usize = 3;

// Raw humidity output "hum": 0xFD..=0xFE.
pub const BME280_HUM_REG: u8 = 0xFD;

pub const BME280_HUM_LEN: usize = 2;

// Configuration register "config" (standby time, IIR filter, SPI enable).
pub const BME280_CONFIG_REG: u8 = 0xF5;

// t_sb[2:0] = 0.5 ms (000), filter[2:0] = x16 (100), spi3w_en[0] = off (0).
pub const BME280_CONFIG_VAL: u8 = 0x10;

// Measurement control register "ctrl_meas" (oversampling, power mode).
pub const BME280_CTRL_MEAS_REG: u8 = 0xF4;

// osrs_t[2:0] = x2 (010), osrs_p[2:0] = x16 (101), mode[1:0] = normal (11).
pub const BME280_CTRL_MEAS_VAL: u8 = 0x57;

// Humidity control register "ctrl_hum" (humidity oversampling).
pub const BME280_CTRL_HUM_REG: u8 = 0xF2;

// osrs_h[2:0] = x1 (001).
pub const BME280_CTRL_HUM_VAL: u8 = 0x01;

} // verus!
