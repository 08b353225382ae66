//! Register-level driver for the ICM-42688-P six-axis inertial measurement unit.
//!
//! The crate maps a typed configuration surface (output data rates, full-scale
//! ranges, power modes, FIFO modes) onto the bit fields of the device's
//! registers, keeps track of the selected register bank, and puts the bytes
//! of the data registers together into samples, over SPI or I2C.
//!
//! What a function of the driver does on the bus is stated over the driver's
//! history, the list of the register accesses it made and what came back;
//! nothing is assumed about the device's answers. The only functions taken
//! on trust are the four in [`interface`] that hand a frame to an
//! `embedded-hal` bus, and nothing is claimed of what they return.
//!
//! - [`register`]: the catalog of registers and banks.
//! - [`bitfield`]: sub-byte fields and the masked update of one of them.
//! - [`config`]: the configuration values and their hardware codes.
//! - [`interface`]: the transport under the driver, framed for SPI and I2C.
//! - [`transcript`]: what each operation of the driver does on the bus.
//! - [`driver`]: the driver itself.
//! - [`sample`]: raw samples and their conversion to physical units in fixed point.
//! - [`fifo`]: packets of the on-device sample buffer.

pub mod bitfield;
pub mod config;
pub mod driver;
pub mod error;
pub mod fifo;
pub mod interface;
pub mod register;
pub mod sample;
pub mod transcript;

pub use bitfield::BitField;
pub use config::{
    AccelMode, AccelODR, AccelRange, FifoMode, GyroMode, GyroODR, GyroRange, PowerMode,
};
pub use driver::Icm42688p;
pub use error::Error;
pub use fifo::FifoPacket;
pub use interface::{I2cInterface, Interface, SpiBusInterface};
pub use register::{BankSelection, Register};
