//! The BME280 temperature, humidity and pressure sensor.

pub mod calibration;
pub mod init;
pub mod read;
pub mod sample;

pub use calibration::Bme280Calibration;
pub use init::Bme280Init;
pub use read::Bme280Read;
pub use sample::{compensated, Measurement, RawSample};

use vstd::prelude::*;

verus! {

/// BME280 address with SDO tied to 3V3.
pub const BME280_ADDR: u8 = 0x77;

pub const BME280_CHIP_ID: u8 = 0xD0;

pub const BME280_CHIP_ID_VALUE: u8 = 0x60;

/// Temperature and pressure calibration, 0x88..=0xA1 (the last byte is dig_H1).
pub const BME280_CALIB_TP: u8 = 0x88;

/// Remaining humidity calibration, 0xE1..=0xE7.
pub const BME280_CALIB_H: u8 = 0xE1;

pub const BME280_CTRL_HUM: u8 = 0xF2;

pub const BME280_STATUS: u8 = 0xF3;

pub const BME280_CTRL_MEAS: u8 = 0xF4;

/// Pressure, temperature and humidity ADC values, 0xF7..=0xFE.
pub const BME280_DATA: u8 = 0xF7;

/// Humidity oversampling x1.
pub const BME280_CTRL_HUM_VALUE: u8 = 0b001;

/// Temperature and pressure oversampling x1 (osrs_t = osrs_p = 0b001), forced
/// mode (0b01, one conversion per write).
pub const BME280_CTRL_MEAS_FORCED: u8 = 0b0010_0101;

pub const BME280_STATUS_MEASURING: u8 = 0x08;

/// A x1/x1/x1 conversion takes under 10 ms, so 10 polls 2 ms apart is plenty.
pub const BME280_MAX_POLLS: u32 = 10;

pub const BME280_POLL_INTERVAL_MS: u64 = 2;

/// A BME280 that has been brought up.
#[derive(Debug, Clone, Copy, PartialEq, Eq, Structural)]
pub struct Bme280 {
    pub calibration: Bme280Calibration,
}

impl Bme280 {
    /// Check the chip ID and load the factory calibration.
    pub fn init() -> (init: Bme280Init)
        ensures
            crate::procedure::Procedure::history(&init) == Seq::<crate::procedure::Reply>::empty(),
    {
        Bme280Init::start()
    }

    /// Trigger a measurement and fetch what the compensation formulas need.
    pub fn read(&self) -> (read: Bme280Read)
        ensures
            crate::procedure::Procedure::given(&read) == *self,
            crate::procedure::Procedure::history(&read) == Seq::<crate::procedure::Reply>::empty(),
    {
        Bme280Read::start(*self)
    }
}

} // verus!
