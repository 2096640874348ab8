//! Interface for the I2C protocol.
//!
//! When pin 5 is connected to ground, the TF-Luna enters I2C mode: pin 2 is SDA and pin 3
//! is SCL. It runs as a slave at up to 400 kbps, with the default address 0x10.
mod bus;
pub mod codec;
mod constants;
mod device;
pub mod laws;
pub mod protocol;
mod types;

pub use bus::{BusOp, Delay, Fault, I2cBus};
pub use constants::DEFAULT_SLAVE_ADDRESS;
pub use device::TFLuna;
pub use types::{Address, Error, Register};
