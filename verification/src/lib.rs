//! Driver core for the BME280 environmental sensor: register map,
//! calibration-data parsing, raw-measurement assembly, and the fixed-point
//! temperature compensation formula, over an abstract two-wire bus.

pub mod bits;
pub mod bus;
pub mod calibration;
pub mod compensation;
pub mod device;
pub mod measurement;
pub mod registers;
