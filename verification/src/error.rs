//! What can go wrong.

use vstd::prelude::*;

verus! {

/// Error returned by the module's sensor capabilities.
#[derive(Debug, Clone, Copy, PartialEq, Eq, Structural)]
pub enum SensorError {
    /// I2C communication with the sensor failed.
    BusError,
    /// The sensor answered with an unexpected chip ID.
    NoDevice,
    /// The sensor did not finish a measurement in time.
    Timeout,
    /// The sensor returned data that could not be processed.
    InvalidData,
}

/// Error returned when the module's driver cannot be brought up.
#[derive(Debug, Clone, Copy, PartialEq, Eq, Structural)]
pub enum DriverError {
    /// The bus could not be created, or a sensor did not come up.
    InitFailed,
}

/// A request that could not be carried out: the I2C bus could not be created,
/// or a transfer on it failed. Why it failed makes no difference to anything
/// in this library.
#[derive(Debug, Clone, Copy, PartialEq, Eq, Structural)]
pub struct Fault;

impl vstd::std_specs::convert::FromSpecImpl<Fault> for SensorError {
    open spec fn obeys_from_spec() -> bool {
        true
    }

    open spec fn from_spec(fault: Fault) -> Self {
        SensorError::BusError
    }
}

impl From<Fault> for SensorError {
    fn from(fault: Fault) -> (error: Self) {
        SensorError::BusError
    }
}

/// A request that could not be carried out is a bus error, and no other error.
pub proof fn law_fault_is_bus_error(fault: Fault)
    ensures
        <SensorError as vstd::std_specs::convert::FromSpec<Fault>>::from_spec(fault)
            == SensorError::BusError,
{
}

} // verus!
