//! Values read from and written to the TF-Luna.
use vstd::prelude::*;

verus! {

/// Firmware version of the device.
#[derive(Clone, Copy, Debug, PartialEq, Eq)]
pub struct FirmwareVersion {
    /// Major version number
    pub major: u8,
    /// Minor version number
    pub minor: u8,
    /// Revision number
    pub revision: u8,
}

/// The device's serial number: 14 ASCII bytes.
#[derive(Clone, Copy, Debug, PartialEq, Eq)]
pub struct SerialNumber(pub [u8; 14]);

/// ASCII signature of the device.
///
/// The TF-Luna's signature is 'L', 'U', 'N', 'A'.
#[derive(Clone, Copy, Debug, PartialEq, Eq)]
pub struct Signature(pub [u8; 4]);

/// Ranging modes of the device.
#[derive(Clone, Copy, Debug, PartialEq, Eq)]
pub enum RangingMode {
    /// The device measures on its own, at the configured framerate
    /// (register value 0).
    Continuous,
    /// The device measures only when a measurement is triggered
    /// (register value 1).
    Trigger,
}

/// Power modes of the device.
#[derive(Clone, Copy, Debug, PartialEq, Eq)]
pub enum PowerMode {
    /// Normal power mode, with the largest power consumption.
    Normal,
    /// Power saving mode.
    PowerSaving,
    /// Ultra-low power mode: the device sleeps and does not acknowledge its address.
    UltraLow,
}

/// One measurement: distance, signal strength, temperature, timestamp and error code,
/// all taken from the same sampling instant.
#[derive(Clone, Copy, Debug, PartialEq, Eq)]
pub struct SensorReading {
    /// Distance in centimeters.
    pub distance: u16,
    /// Signal strength (amplitude), between 0 and 1000.
    pub signal_strength: u16,
    /// Internal temperature in hundredths of a degree Celsius (3250 is 32.5 °C).
    pub temperature: u16,
    /// Clock ticks since the device was powered on.
    pub timestamp: u16,
    /// Error code.
    pub error: u16,
}

} // verus!
