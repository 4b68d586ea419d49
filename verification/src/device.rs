//! Device handle: owns one bus adapter and the slave address, and exposes
//! initialization plus the two read operations. Every contract pins down,
//! through the adapter's ghost log, exactly which registers are touched, in
//! what order, and that a failing transaction stops the operation with no
//! partial result.

use vstd::prelude::*;
use crate::bus::{
    BusAdapter, BusOp, write_attempt, read_attempt, ok_read, failed_read, read_data,
};
use crate::calibration::{CompensationData, parse_compensation, spec_parse_compensation};
use crate::measurement::{EnvData, assemble_env_data, spec_assemble_env_data};
use crate::registers::{
    BME280_TEMPERATURE_COMP_REG, BME280_TEMPERATURE_COMP_LEN,
    BME280_PRESSURE_COMP_REG, BME280_PRESSURE_COMP_LEN,
    BME280_HUMIDITY_COMP_REG_HI, BME280_HUMIDITY_COMP_HI_LEN,
    BME280_HUMIDITY_COMP_REG_LO, BME280_HUMIDITY_COMP_LO_LEN,
    BME280_PRESS_REG, BME280_PRESS_LEN,
    BME280_TEMP_REG, BME280_TEMP_LEN,
    BME280_HUM_REG, BME280_HUM_LEN,
    BME280_CONFIG_REG, BME280_CONFIG_VAL,
    BME280_CTRL_MEAS_REG, BME280_CTRL_MEAS_VAL,
    BME280_CTRL_HUM_REG, BME280_CTRL_HUM_VAL,
};

verus! {

/// The three failure kinds at the driver boundary. Each wraps one failed bus
/// transaction; the core never retries and never suppresses a failure.
#[derive(Clone, Copy, Debug, PartialEq, Eq, Structural)]
pub enum BME280ErrorType {
    /// One of the three initialization writes failed.
    InitializeError,
    /// One of the calibration or measurement reads failed.
    ReadError,
    /// A single register write failed.
    WriteError,
}

/// A BME280 behind a bus adapter. The adapter is owned exclusively; all
/// access is sequential.
pub struct BME280<T: BusAdapter> {
    i2cdev: T,
    slave_address: u16,
}

/// The ghost log that a successful `initialize` appends: the three
/// configuration writes, in their fixed order.
pub open spec fn init_writes_ok() -> Seq<BusOp> {
    seq![
        write_attempt(BME280_CONFIG_REG, BME280_CONFIG_VAL, true),
        write_attempt(BME280_CTRL_MEAS_REG, BME280_CTRL_MEAS_VAL, true),
        write_attempt(BME280_CTRL_HUM_REG, BME280_CTRL_HUM_VAL, true),
    ]
}

/// The ghost log that a failed `initialize` appends: a (possibly empty) run
/// of successful configuration writes, in order, ended by the one write that
/// failed — nothing after it was attempted.
pub open spec fn init_writes_failed(appended: Seq<BusOp>) -> bool {
    ||| appended == seq![write_attempt(BME280_CONFIG_REG, BME280_CONFIG_VAL, false)]
    ||| appended == seq![
            write_attempt(BME280_CONFIG_REG, BME280_CONFIG_VAL, true),
            write_attempt(BME280_CTRL_MEAS_REG, BME280_CTRL_MEAS_VAL, false),
        ]
    ||| appended == seq![
            write_attempt(BME280_CONFIG_REG, BME280_CONFIG_VAL, true),
            write_attempt(BME280_CTRL_MEAS_REG, BME280_CTRL_MEAS_VAL, true),
            write_attempt(BME280_CTRL_HUM_REG, BME280_CTRL_HUM_VAL, false),
        ]
}

/// The register blocks a calibration read visits, in their fixed order:
/// temperature block, pressure block, humidity high byte, humidity low
/// block.
pub open spec fn calibration_reads() -> Seq<(u8, usize)> {
    seq![
        (BME280_TEMPERATURE_COMP_REG, BME280_TEMPERATURE_COMP_LEN),
        (BME280_PRESSURE_COMP_REG, BME280_PRESSURE_COMP_LEN),
        (BME280_HUMIDITY_COMP_REG_HI, BME280_HUMIDITY_COMP_HI_LEN),
        (BME280_HUMIDITY_COMP_REG_LO, BME280_HUMIDITY_COMP_LO_LEN),
    ]
}

/// The register blocks a raw-measurement read visits, in their fixed order:
/// pressure, temperature, humidity.
pub open spec fn measurement_reads() -> Seq<(u8, usize)> {
    seq![
        (BME280_PRESS_REG, BME280_PRESS_LEN),
        (BME280_TEMP_REG, BME280_TEMP_LEN),
        (BME280_HUM_REG, BME280_HUM_LEN),
    ]
}

/// Holds when `appended` is what a multi-block read operation over the
/// blocks `plan` adds to the ghost log on success: one successful read per
/// block, in order.
pub open spec fn reads_all_ok(appended: Seq<BusOp>, plan: Seq<(u8, usize)>) -> bool {
    &&& appended.len() == plan.len()
    &&& forall|i: int| 0 <= i < plan.len()
        ==> #[trigger] ok_read(appended[i], plan[i].0, plan[i].1)
}

/// Holds when `appended` is what a failed multi-block read operation over
/// the blocks `plan` adds to the ghost log: a (possibly empty) run of
/// successful reads, in order, ended by the one read that failed — nothing
/// after it was attempted.
pub open spec fn reads_stopped_at_failure(appended: Seq<BusOp>, plan: Seq<(u8, usize)>) -> bool {
    exists|k: int| {
        &&& 0 <= k < plan.len()
        &&& appended.len() == k + 1
        &&& (forall|i: int| 0 <= i < k
            ==> #[trigger] ok_read(appended[i], plan[i].0, plan[i].1))
        &&& failed_read(#[trigger] appended[k], plan[k].0, plan[k].1)
    }
}

impl<T: BusAdapter> BME280<T> {
    /// The owned bus adapter.
    pub closed spec fn bus(self) -> T {
        self.i2cdev
    }

    /// The bus addressing identifier this handle was created with.
    pub closed spec fn address(self) -> u16 {
        self.slave_address
    }

    /// Pure construction; no bus transaction is performed.
    pub fn new(dev: T, slave_addr: u16) -> (r: Self)
        ensures
            r.bus() == dev,
            r.address() == slave_addr,
    {
        Self { i2cdev: dev, slave_address: slave_addr }
    }

    /// Give the owned adapter back; the handle has no other teardown.
    pub fn release(self) -> (r: T)
        ensures
            r == self.bus(),
    {
        self.i2cdev
    }

    /// Write one byte to one register. Exactly one transaction is attempted;
    /// a transport failure surfaces as `WriteError`.
    pub fn write(&mut self, register_addr: u8, value: u8) -> (r: Result<(), BME280ErrorType>)
        ensures
            final(self).address() == old(self).address(),
            final(self).bus().log() == old(self).bus().log().push(
                write_attempt(register_addr, value, r is Ok),
            ),
            r is Err ==> r == Err::<(), BME280ErrorType>(BME280ErrorType::WriteError),
    {
        match self.i2cdev.write_register(register_addr, value) {
            Ok(_) => Ok(()),
            Err(_) => Err(BME280ErrorType::WriteError),
        }
    }

    /// Read `count` contiguous bytes starting at one register. Exactly one
    /// transaction is attempted; a transport failure surfaces as
    /// `ReadError`.
    pub fn read(&mut self, register_addr: u8, count: usize) -> (r: Result<
        Vec<u8>,
        BME280ErrorType,
    >)
        ensures
            final(self).address() == old(self).address(),
            (match r {
                Ok(data) => {
                    &&& data@.len() == count
                    &&& final(self).bus().log() == old(self).bus().log().push(
                        read_attempt(register_addr, count, Some(data@)),
                    )
                },
                Err(e) => {
                    &&& e == BME280ErrorType::ReadError
                    &&& final(self).bus().log() == old(self).bus().log().push(
                        read_attempt(register_addr, count, None),
                    )
                },
            }),
    {
        match self.i2cdev.read_registers(register_addr, count) {
            Ok(data) => Ok(data),
            Err(_) => Err(BME280ErrorType::ReadError),
        }
    }

    /// Write the three configuration registers — "config" (0xF5),
    /// "ctrl_meas" (0xF4), "ctrl_hum" (0xF2) — in that fixed order, with the
    /// sensor-design bit patterns. A failed write surfaces as
    /// `InitializeError` at once: later writes are not attempted and earlier
    /// ones are not rolled back.
    pub fn initialize(&mut self) -> (r: Result<(), BME280ErrorType>)
        ensures
            final(self).address() == old(self).address(),
            (match r {
                Ok(_) => final(self).bus().log() == old(self).bus().log() + init_writes_ok(),
                Err(e) => {
                    &&& e == BME280ErrorType::InitializeError
                    &&& final(self).bus().log().len() > old(self).bus().log().len()
                    &&& final(self).bus().log().take(old(self).bus().log().len() as int)
                        == old(self).bus().log()
                    &&& init_writes_failed(final(self).bus().log().skip(
                        old(self).bus().log().len() as int,
                    ))
                },
            }),
    {
        let ghost pre = self.bus().log();

        // set "config(0xF5)" register
        // t_sb[2:0]   = 0.5ms(000)
        // filter[2:0] = filter x16(100)
        // spi3w_en[0] = not enable 3wire SPI(0)
        // value = |000|100|*|0|
        if self.write(BME280_CONFIG_REG, BME280_CONFIG_VAL).is_err() {
            proof {
                assert(self.bus().log().take(pre.len() as int) =~= pre);
                assert(self.bus().log().skip(pre.len() as int) =~= seq![
                    write_attempt(BME280_CONFIG_REG, BME280_CONFIG_VAL, false),
                ]);
            }
            return Err(BME280ErrorType::InitializeError);
        }

        // set "ctrl_meas(0xF4)" register
        // osrs_t[2:0]     = oversamplingx2(010)
        // osrs_p[2:0]     = oversamplingx16(101)
        // mode[1:0]       = normal mode(11)
        // value = |010|101|11|
        if self.write(BME280_CTRL_MEAS_REG, BME280_CTRL_MEAS_VAL).is_err() {
            proof {
                assert(self.bus().log().take(pre.len() as int) =~= pre);
                assert(self.bus().log().skip(pre.len() as int) =~= seq![
                    write_attempt(BME280_CONFIG_REG, BME280_CONFIG_VAL, true),
                    write_attempt(BME280_CTRL_MEAS_REG, BME280_CTRL_MEAS_VAL, false),
                ]);
            }
            return Err(BME280ErrorType::InitializeError);
        }

        // set "ctrl_hum(0xF2)" register
        // osrs_h[2:0]  = oversamplingx1(001)
        // value = |*****|001|
        if self.write(BME280_CTRL_HUM_REG, BME280_CTRL_HUM_VAL).is_err() {
            proof {
                assert(self.bus().log().take(pre.len() as int) =~= pre);
                assert(self.bus().log().skip(pre.len() as int) =~= seq![
                    write_attempt(BME280_CONFIG_REG, BME280_CONFIG_VAL, true),
                    write_attempt(BME280_CTRL_MEAS_REG, BME280_CTRL_MEAS_VAL, true),
                    write_attempt(BME280_CTRL_HUM_REG, BME280_CTRL_HUM_VAL, false),
                ]);
            }
            return Err(BME280ErrorType::InitializeError);
        }

        proof {
            assert(self.bus().log() =~= pre + init_writes_ok());
        }
        Ok(())
    }

    /// Read the four calibration blocks in their fixed order and hand the
    /// bytes to the calibration parser. Any failed read surfaces as
    /// `ReadError` at once: later reads are not attempted and no partial
    /// bundle is returned.
    pub fn read_compensation(&mut self) -> (r: Result<CompensationData, BME280ErrorType>)
        ensures
            final(self).address() == old(self).address(),
            (match r {
                Ok(compdata) => {
                    let appended = final(self).bus().log().skip(
                        old(self).bus().log().len() as int,
                    );
                    &&& final(self).bus().log().len() == old(self).bus().log().len() + 4
                    &&& final(self).bus().log().take(old(self).bus().log().len() as int)
                        == old(self).bus().log()
                    &&& reads_all_ok(appended, calibration_reads())
                    &&& compdata == spec_parse_compensation(
                        read_data(appended[0]),
                        read_data(appended[1]),
                        read_data(appended[2]) + read_data(appended[3]),
                    )
                },
                Err(e) => {
                    &&& e == BME280ErrorType::ReadError
                    &&& final(self).bus().log().len() > old(self).bus().log().len()
                    &&& final(self).bus().log().take(old(self).bus().log().len() as int)
                        == old(self).bus().log()
                    &&& reads_stopped_at_failure(
                        final(self).bus().log().skip(old(self).bus().log().len() as int),
                        calibration_reads(),
                    )
                },
            }),
    {
        let ghost pre = self.bus().log();

        // read temperature compensation data
        let reg_t = match self.read(BME280_TEMPERATURE_COMP_REG, BME280_TEMPERATURE_COMP_LEN) {
            Ok(data) => data,
            Err(e) => {
                proof {
                    lemma_failure_trace(pre, self.bus().log(), calibration_reads(), 0);
                }
                return Err(e);
            },
        };
        // read pressure compensation data
        let reg_p = match self.read(BME280_PRESSURE_COMP_REG, BME280_PRESSURE_COMP_LEN) {
            Ok(data) => data,
            Err(e) => {
                proof {
                    lemma_failure_trace(pre, self.bus().log(), calibration_reads(), 1);
                }
                return Err(e);
            },
        };
        // read humidity compensation hi data, then lo data
        let reg_h_hi = match self.read(BME280_HUMIDITY_COMP_REG_HI, BME280_HUMIDITY_COMP_HI_LEN) {
            Ok(data) => data,
            Err(e) => {
                proof {
                    lemma_failure_trace(pre, self.bus().log(), calibration_reads(), 2);
                }
                return Err(e);
            },
        };
        let reg_h_lo = match self.read(BME280_HUMIDITY_COMP_REG_LO, BME280_HUMIDITY_COMP_LO_LEN) {
            Ok(data) => data,
            Err(e) => {
                proof {
                    lemma_failure_trace(pre, self.bus().log(), calibration_reads(), 3);
                }
                return Err(e);
            },
        };

        // the humidity bytes are parsed as one block: hi byte, then lo block
        let mut reg_h: Vec<u8> = Vec::new();
        reg_h.push(reg_h_hi[0]);
        let mut i: usize = 0;
        while i < 7
            invariant
                i <= 7,
                reg_h_lo@.len() == 7,
                reg_h@.len() == i + 1,
                reg_h@[0] == reg_h_hi@[0],
                forall|j: int| 0 <= j < i ==> reg_h@[j + 1] == reg_h_lo@[j],
            decreases 7 - i,
        {
            reg_h.push(reg_h_lo[i]);
            i = i + 1;
        }
        proof {
            assert(reg_h@ =~= reg_h_hi@ + reg_h_lo@);
        }

        let compdata = parse_compensation(
            reg_t.as_slice(),
            reg_p.as_slice(),
            reg_h.as_slice(),
        );

        proof {
            let appended = self.bus().log().skip(pre.len() as int);
            assert(self.bus().log().take(pre.len() as int) =~= pre);
            assert(appended =~= seq![
                read_attempt(BME280_TEMPERATURE_COMP_REG, BME280_TEMPERATURE_COMP_LEN,
                    Some(reg_t@)),
                read_attempt(BME280_PRESSURE_COMP_REG, BME280_PRESSURE_COMP_LEN, Some(reg_p@)),
                read_attempt(BME280_HUMIDITY_COMP_REG_HI, BME280_HUMIDITY_COMP_HI_LEN,
                    Some(reg_h_hi@)),
                read_attempt(BME280_HUMIDITY_COMP_REG_LO, BME280_HUMIDITY_COMP_LO_LEN,
                    Some(reg_h_lo@)),
            ]);
        }
        Ok(compdata)
    }

    /// Read the three raw output blocks in their fixed order and hand the
    /// bytes to the raw measurement assembler. Any failed read surfaces as
    /// `ReadError` at once: later reads are not attempted and no partial
    /// sample is returned.
    pub fn read_env_measured(&mut self) -> (r: Result<EnvData, BME280ErrorType>)
        ensures
            final(self).address() == old(self).address(),
            (match r {
                Ok(envdata) => {
                    let appended = final(self).bus().log().skip(
                        old(self).bus().log().len() as int,
                    );
                    &&& final(self).bus().log().len() == old(self).bus().log().len() + 3
                    &&& final(self).bus().log().take(old(self).bus().log().len() as int)
                        == old(self).bus().log()
                    &&& reads_all_ok(appended, measurement_reads())
                    &&& envdata == spec_assemble_env_data(
                        read_data(appended[0]),
                        read_data(appended[1]),
                        read_data(appended[2]),
                    )
                },
                Err(e) => {
                    &&& e == BME280ErrorType::ReadError
                    &&& final(self).bus().log().len() > old(self).bus().log().len()
                    &&& final(self).bus().log().take(old(self).bus().log().len() as int)
                        == old(self).bus().log()
                    &&& reads_stopped_at_failure(
                        final(self).bus().log().skip(old(self).bus().log().len() as int),
                        measurement_reads(),
                    )
                },
            }),
    {
        let ghost pre = self.bus().log();

        // read pressure data
        let reg_press = match self.read(BME280_PRESS_REG, BME280_PRESS_LEN) {
            Ok(data) => data,
            Err(e) => {
                proof {
                    lemma_failure_trace(pre, self.bus().log(), measurement_reads(), 0);
                }
                return Err(e);
            },
        };
        // read temperature data
        let reg_temp = match self.read(BME280_TEMP_REG, BME280_TEMP_LEN) {
            Ok(data) => data,
            Err(e) => {
                proof {
                    lemma_failure_trace(pre, self.bus().log(), measurement_reads(), 1);
                }
                return Err(e);
            },
        };
        // read humidity data
        let reg_hum = match self.read(BME280_HUM_REG, BME280_HUM_LEN) {
            Ok(data) => data,
            Err(e) => {
                proof {
                    lemma_failure_trace(pre, self.bus().log(), measurement_reads(), 2);
                }
                return Err(e);
            },
        };

        let envdata = assemble_env_data(
            reg_press.as_slice(),
            reg_temp.as_slice(),
            reg_hum.as_slice(),
        );

        proof {
            let appended = self.bus().log().skip(pre.len() as int);
            assert(self.bus().log().take(pre.len() as int) =~= pre);
            assert(appended =~= seq![
                read_attempt(BME280_PRESS_REG, BME280_PRESS_LEN, Some(reg_press@)),
                read_attempt(BME280_TEMP_REG, BME280_TEMP_LEN, Some(reg_temp@)),
                read_attempt(BME280_HUM_REG, BME280_HUM_LEN, Some(reg_hum@)),
            ]);
        }
        Ok(envdata)
    }
}

/// After `k` successful reads of `plan`'s first `k` blocks and one failed
/// read of block `k`, the log's new tail is a failure trace over `plan`.
proof fn lemma_failure_trace(pre: Seq<BusOp>, post: Seq<BusOp>, plan: Seq<(u8, usize)>, k: int)
    requires
        0 <= k < plan.len(),
        post.len() == pre.len() + k + 1,
        forall|i: int| 0 <= i < pre.len() ==> post[i] == pre[i],
        forall|i: int| 0 <= i < k
            ==> #[trigger] ok_read(post[pre.len() + i], plan[i].0, plan[i].1),
        failed_read(post[pre.len() + k], plan[k].0, plan[k].1),
    ensures
        post.len() > pre.len(),
        post.take(pre.len() as int) == pre,
        reads_stopped_at_failure(post.skip(pre.len() as int), plan),
{
    assert(post.take(pre.len() as int) =~= pre);
    let appended = post.skip(pre.len() as int);
    assert(appended.len() == k + 1);
    assert forall|i: int| 0 <= i < k
        implies #[trigger] ok_read(appended[i], plan[i].0, plan[i].1) by {
        assert(appended[i] == post[pre.len() + i]);
    }
    assert(failed_read(appended[k], plan[k].0, plan[k].1));
}

} // verus!
