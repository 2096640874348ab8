//! Driver for the TF-Luna LiDAR distance sensor over its I2C register interface.
//!
//! The driver talks to the device through two small capabilities, [`i2c::I2cBus`] and
//! [`i2c::Delay`], and keeps a ghost record of every bus operation it issues. The contracts of
//! the controller's methods state exactly which transactions each method issues and how their
//! outcome becomes the method's result.
pub mod i2c;
mod types;

pub use types::{FirmwareVersion, PowerMode, RangingMode, SensorReading, SerialNumber, Signature};
