//! Address, error and register types of the I2C interface.
use vstd::prelude::*;

use crate::i2c::constants::DEFAULT_SLAVE_ADDRESS;

verus! {

/// I2C device address (7 bits).
#[derive(Debug, Copy, Clone, PartialEq, Eq, Hash)]
pub struct Address(pub(crate) u8);

impl View for Address {
    type V = u8;

    closed spec fn view(&self) -> u8 {
        self.0
    }
}

/// The default address is 0x10.
impl Default for Address {
    fn default() -> (r: Self)
        ensures
            r@ == DEFAULT_SLAVE_ADDRESS,
    {
        Address(DEFAULT_SLAVE_ADDRESS)
    }
}

/// Any integer can name an address.
impl From<u8> for Address {
    fn from(a: u8) -> (r: Self)
        ensures
            r@ == a,
    {
        Address(a)
    }
}

impl vstd::std_specs::convert::FromSpecImpl<u8> for Address {
    open spec fn obeys_from_spec() -> bool {
        true
    }

    closed spec fn from_spec(v: u8) -> Address {
        Address(v)
    }
}

/// An address converts back to its integer.
impl From<Address> for u8 {
    fn from(a: Address) -> (r: Self)
        ensures
            r == a@,
    {
        a.0
    }
}

impl vstd::std_specs::convert::FromSpecImpl<Address> for u8 {
    open spec fn obeys_from_spec() -> bool {
        true
    }

    closed spec fn from_spec(v: Address) -> u8 {
        v.0
    }
}

/// Errors of the controller; `E` is the bus's own error type.
#[derive(Clone, Copy, Debug, PartialEq, Eq)]
pub enum Error<E> {
    /// The bus transaction failed (a no-acknowledge included).
    I2c(E),
    /// A register held a value outside its documented set; the value is carried.
    InvalidData(u8),
    /// A value handed to the controller was rejected before any bus access.
    InvalidParameter,
    /// Any other failure.
    Other,
}

/// Registers of the TF-Luna.
#[derive(Debug, Copy, Clone, PartialEq, Eq)]
pub enum Register {
    /// Distance, low byte first, in centimeters. Read-only.
    Distance,
    /// Signal strength, low byte first. Read-only.
    SignalStrength,
    /// Temperature, low byte first, in hundredths of a degree Celsius. Read-only.
    Temperature,
    /// Timestamp, low byte first, in device ticks. Read-only.
    Timestamp,
    /// Error code, low byte first. Read-only.
    Error,
    /// Firmware revision, minor and major numbers, in that order. Read-only.
    FirmwareVersion,
    /// First of the 14 ASCII bytes of the serial number. Read-only.
    SerialNumber,
    /// Ultra-low power mode selection. Write-only.
    UltraLowPowerMode,
    /// Save settings command. Write-only.
    Save,
    /// Shutdown/reboot command. Write-only.
    ShutdownReboot,
    /// I2C slave address. Read/write.
    SlaveAddress,
    /// Ranging mode. Read/write.
    RangingMode,
    /// One-shot measurement trigger. Write-only.
    Trigger,
    /// Enable (1) or disable (0) measurements. Read/write.
    Enable,
    /// Framerate in Hz, low byte first. Read/write.
    Framerate,
    /// Power-saving mode. Read/write.
    PowerSavingMode,
    /// Restore factory defaults command. Write-only.
    RestoreFactoryDefaults,
    /// Signal strength threshold, low byte first. Read/write.
    SignalStrengthThreshold,
    /// Dummy distance in centimeters, low byte first. Read/write.
    DummyDistance,
    /// Minimum distance, low byte first. Read/write.
    MinimumDistance,
    /// Maximum distance, low byte first. Read/write.
    MaximumDistance,
    /// First of the 4 ASCII bytes of the signature. Read-only.
    Signature,
}

impl Register {
    /// Byte offset of the register in the device's register map.
    pub open spec fn spec_offset(self) -> u8 {
        match self {
            Register::Distance => 0x00,
            Register::SignalStrength => 0x02,
            Register::Temperature => 0x04,
            Register::Timestamp => 0x06,
            Register::Error => 0x08,
            Register::FirmwareVersion => 0x0A,
            Register::SerialNumber => 0x10,
            Register::UltraLowPowerMode => 0x1F,
            Register::Save => 0x20,
            Register::ShutdownReboot => 0x21,
            Register::SlaveAddress => 0x22,
            Register::RangingMode => 0x23,
            Register::Trigger => 0x24,
            Register::Enable => 0x25,
            Register::Framerate => 0x26,
            Register::PowerSavingMode => 0x28,
            Register::RestoreFactoryDefaults => 0x29,
            Register::SignalStrengthThreshold => 0x2A,
            Register::DummyDistance => 0x2C,
            Register::MinimumDistance => 0x2E,
            Register::MaximumDistance => 0x30,
            Register::Signature => 0x3C,
        }
    }

    /// Byte offset of the register, as sent on the bus before its contents.
    #[verifier::when_used_as_spec(spec_offset)]
    pub fn offset(self) -> (r: u8)
        ensures
            r == self.spec_offset(),
    {
        match self {
            Register::Distance => 0x00,
            Register::SignalStrength => 0x02,
            Register::Temperature => 0x04,
            Register::Timestamp => 0x06,
            Register::Error => 0x08,
            Register::FirmwareVersion => 0x0A,
            Register::SerialNumber => 0x10,
            Register::UltraLowPowerMode => 0x1F,
            Register::Save => 0x20,
            Register::ShutdownReboot => 0x21,
            Register::SlaveAddress => 0x22,
            Register::RangingMode => 0x23,
            Register::Trigger => 0x24,
            Register::Enable => 0x25,
            Register::Framerate => 0x26,
            Register::PowerSavingMode => 0x28,
            Register::RestoreFactoryDefaults => 0x29,
            Register::SignalStrengthThreshold => 0x2A,
            Register::DummyDistance => 0x2C,
            Register::MinimumDistance => 0x2E,
            Register::MaximumDistance => 0x30,
            Register::Signature => 0x3C,
        }
    }
}

} // verus!
