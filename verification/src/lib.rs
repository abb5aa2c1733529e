//! Driver logic of an environment and motion sensing module: a BME280 and a
//! LIS3DH on one I2C bus, and an LED.
//!
//! The bus, the timer and the registry of capabilities are asynchronous, so
//! nothing here calls them. Each exchange with them is a [`Procedure`]: it
//! says what it wants done next and takes the reply.

pub mod error;
pub mod procedure;
pub mod bytes;
pub mod bus;
pub mod bme280;
pub mod lis3dh;
pub mod driver;

pub use bme280::{
    compensated, Bme280, Bme280Calibration, Bme280Init, Bme280Read, Measurement, RawSample,
};
pub use bus::BusRequest;
pub use driver::{Capability, DriverCreate, DriverRequest, EnvSenseDriver, ModuleID, Pin};
pub use error::{DriverError, Fault, SensorError};
pub use lis3dh::{Lis3dh, Lis3dhInit, Lis3dhRead, RawAcceleration};
pub use procedure::{Procedure, Progress};
