use vstd::prelude::*;

verus! {

/// Everything that can go wrong while talking to the sensor.
#[derive(Clone, Copy, Debug, PartialEq, Eq, Structural)]
pub enum Error {
    /// Pin operation failed.
    Pin,
    /// SPI communication failed.
    Spi,
    /// I2C communication failed.
    I2C,
    /// Unknown device id.
    BadDeviceId,
    /// The data returned from the sensor is invalid.
    DataCorrupted,
}

} // verus!
