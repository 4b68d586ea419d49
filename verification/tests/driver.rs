//! Tests of the device handle over the in-memory bus adapter: register
//! access order, configuration bit patterns, and all-or-nothing failure.

use bme280::bus::{BusEvent, MemoryBus};
use bme280::device::{BME280, BME280ErrorType};

const SLAVE_ADDR: u16 = 0x76;

fn bus_with_fixture() -> MemoryBus {
    let mut bus = MemoryBus::new();
    // Temperature calibration 0x88..=0x8D: t1 = 27504, t2 = 26435, t3 = -1000.
    for (i, v) in [0x70, 0x6B, 0x43, 0x67, 0x18, 0xFC].into_iter().enumerate() {
        bus.set_register(0x88 + i as u8, v);
    }
    // Pressure calibration 0x8E..=0x9F: p1 = 0x0201, the rest distinct.
    for i in 0..18u8 {
        bus.set_register(0x8E + i, i + 1);
    }
    // Humidity calibration: high byte 0xA1, low block 0xE1..=0xE7.
    bus.set_register(0xA1, 0x4B);
    for (i, v) in [0x61, 0x01, 0x00, 0x14, 0x2F, 0x03, 0x1E].into_iter().enumerate() {
        bus.set_register(0xE1 + i as u8, v);
    }
    // Raw outputs: pressure 0xF7.., temperature 0xFA.., humidity 0xFD...
    for (i, v) in [0x55, 0x55, 0x50, 0x7E, 0xED, 0x00, 0x12, 0x34].into_iter().enumerate() {
        bus.set_register(0xF7 + i as u8, v);
    }
    bus
}

#[test]
fn initialize_writes_three_registers_in_fixed_order() {
    let mut dev = BME280::new(MemoryBus::new(), SLAVE_ADDR);
    assert!(dev.initialize().is_ok());
    let bus = dev.release();
    assert_eq!(
        bus.events,
        vec![
            BusEvent::Write { addr: 0xF5, value: 0x10, ok: true },
            BusEvent::Write { addr: 0xF4, value: 0x57, ok: true },
            BusEvent::Write { addr: 0xF2, value: 0x01, ok: true },
        ],
    );
    assert_eq!(bus.mem[0xF5], 0x10);
    assert_eq!(bus.mem[0xF4], 0x57);
    assert_eq!(bus.mem[0xF2], 0x01);
}

#[test]
fn initialize_overwrites_prior_device_state() {
    let mut bus = MemoryBus::new();
    bus.set_register(0xF5, 0xAA);
    bus.set_register(0xF4, 0xBB);
    bus.set_register(0xF2, 0xCC);
    let mut dev = BME280::new(bus, SLAVE_ADDR);
    assert!(dev.initialize().is_ok());
    let bus = dev.release();
    assert_eq!((bus.mem[0xF5], bus.mem[0xF4], bus.mem[0xF2]), (0x10, 0x57, 0x01));
}

#[test]
fn initialize_stops_at_first_failed_write() {
    // The adapter fails on the second write: initialize must fail without
    // attempting the third.
    let mut bus = MemoryBus::new();
    bus.fail_after(1);
    let mut dev = BME280::new(bus, SLAVE_ADDR);
    assert_eq!(dev.initialize(), Err(BME280ErrorType::InitializeError));
    let bus = dev.release();
    assert_eq!(
        bus.events,
        vec![
            BusEvent::Write { addr: 0xF5, value: 0x10, ok: true },
            BusEvent::Write { addr: 0xF4, value: 0x57, ok: false },
        ],
    );
}

#[test]
fn write_failure_surfaces_as_write_error() {
    let mut bus = MemoryBus::new();
    bus.fail_after(0);
    let mut dev = BME280::new(bus, SLAVE_ADDR);
    assert_eq!(dev.write(0xF5, 0x10), Err(BME280ErrorType::WriteError));
}

#[test]
fn read_failure_surfaces_as_read_error() {
    let mut bus = MemoryBus::new();
    bus.fail_after(0);
    let mut dev = BME280::new(bus, SLAVE_ADDR);
    assert_eq!(dev.read(0x88, 6), Err(BME280ErrorType::ReadError));
}

#[test]
fn read_returns_exactly_the_requested_bytes() {
    let mut dev = BME280::new(bus_with_fixture(), SLAVE_ADDR);
    let data = dev.read(0x88, 6).unwrap();
    assert_eq!(data, vec![0x70, 0x6B, 0x43, 0x67, 0x18, 0xFC]);
}

#[test]
fn read_compensation_reads_four_blocks_in_fixed_order() {
    let mut dev = BME280::new(bus_with_fixture(), SLAVE_ADDR);
    let comp = dev.read_compensation().unwrap();
    let bus = dev.release();
    assert_eq!(
        bus.events,
        vec![
            BusEvent::Read { addr: 0x88, count: 6, ok: true },
            BusEvent::Read { addr: 0x8E, count: 18, ok: true },
            BusEvent::Read { addr: 0xA1, count: 1, ok: true },
            BusEvent::Read { addr: 0xE1, count: 7, ok: true },
        ],
    );
    assert_eq!(comp.temperature.t1, 27504);
    assert_eq!(comp.temperature.t2, 26435);
    assert_eq!(comp.temperature.t3, -1000);
    assert_eq!(comp.pressure.p1, 0x0201);
    assert_eq!(comp.pressure.p9, 0x1211);
    assert_eq!(comp.humidity.h1, 0x4B);
    assert_eq!(comp.humidity.h4, 0x14F);
    assert_eq!(comp.humidity.h5, 0x32);
}

#[test]
fn read_compensation_stops_at_first_failed_read() {
    // The adapter fails on the third read: the humidity blocks are not all
    // attempted and no partial bundle is returned.
    let mut bus = bus_with_fixture();
    bus.fail_after(2);
    let mut dev = BME280::new(bus, SLAVE_ADDR);
    assert_eq!(dev.read_compensation(), Err(BME280ErrorType::ReadError));
    let bus = dev.release();
    assert_eq!(
        bus.events,
        vec![
            BusEvent::Read { addr: 0x88, count: 6, ok: true },
            BusEvent::Read { addr: 0x8E, count: 18, ok: true },
            BusEvent::Read { addr: 0xA1, count: 1, ok: false },
        ],
    );
}

#[test]
fn read_env_measured_reads_three_blocks_in_fixed_order() {
    let mut dev = BME280::new(bus_with_fixture(), SLAVE_ADDR);
    let env = dev.read_env_measured().unwrap();
    let bus = dev.release();
    assert_eq!(
        bus.events,
        vec![
            BusEvent::Read { addr: 0xF7, count: 3, ok: true },
            BusEvent::Read { addr: 0xFA, count: 3, ok: true },
            BusEvent::Read { addr: 0xFD, count: 2, ok: true },
        ],
    );
    assert_eq!(env.pressure, 349525); // 0x555550 >> 4
    assert_eq!(env.temperature, 519888); // 0x7EED00 >> 4
    assert_eq!(env.humidity, 4660); // 0x1234
}

#[test]
fn read_env_measured_stops_at_first_failed_read() {
    let mut bus = bus_with_fixture();
    bus.fail_after(0);
    let mut dev = BME280::new(bus, SLAVE_ADDR);
    assert_eq!(dev.read_env_measured(), Err(BME280ErrorType::ReadError));
    let bus = dev.release();
    assert_eq!(bus.events, vec![BusEvent::Read { addr: 0xF7, count: 3, ok: false }]);
}

#[test]
fn full_cycle_reproduces_datasheet_temperature() {
    let mut dev = BME280::new(bus_with_fixture(), SLAVE_ADDR);
    dev.initialize().unwrap();
    let comp = dev.read_compensation().unwrap();
    let env = dev.read_env_measured().unwrap();
    let centi = bme280::compensation::calc_temperature_checked(comp.temperature, env.temperature);
    assert_eq!(centi, Some(2508));
}
