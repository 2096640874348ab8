//! Command values and limits of the I2C register interface.
use vstd::prelude::*;

verus! {

/// Default I2C slave address of the TF-Luna.
pub const DEFAULT_SLAVE_ADDRESS: u8 = 0x10;

/// Value written to save the current settings.
pub const SAVE_COMMAND_VALUE: u8 = 1;

/// Value written to reboot the device.
pub const REBOOT_COMMAND_VALUE: u8 = 2;

/// Value written to restore the factory defaults.
pub const RESTORE_FACTORY_DEFAULTS_COMMAND_VALUE: u8 = 1;

/// Value written to trigger one measurement (useful in trigger ranging mode only).
pub const TRIGGER_COMMAND_VALUE: u8 = 1;

/// Value written to enable measurements.
pub const ENABLE_COMMAND_VALUE: u8 = 1;

/// Value written to disable measurements.
pub const DISABLE_COMMAND_VALUE: u8 = 0;

/// Value of the power mode registers for normal power.
pub const NORMAL_POWER_MODE_COMMAND_VALUE: u8 = 0;

/// Value of the power-saving register for power saving mode.
pub const POWER_SAVING_POWER_MODE_COMMAND_VALUE: u8 = 1;

/// Value of the ultra-low power register for ultra-low power mode.
pub const ULTRA_LOW_POWER_MODE_COMMAND_VALUE: u8 = 1;

/// Smallest slave address that the device accepts.
pub const SLAVE_ADDRESS_MINIMUM_VALUE: u8 = 0x08;

/// Largest slave address that the device accepts.
pub const SLAVE_ADDRESS_MAXIMUM_VALUE: u8 = 0x77;

/// Internal sampling rate in Hz; a framerate other than 0 must divide it and be smaller.
pub const SAMPLING_RATE_HZ: u16 = 500;

/// Wait after a sleeping device was addressed, before it takes commands.
pub const WAKE_DELAY_MS: u32 = 12;

/// Wait after the ultra-low power register was written, saved and the device rebooted.
pub const REBOOT_DELAY_MS: u32 = 1000;

/// Wait at the end of every power mode change.
pub const POWER_MODE_SETTLE_DELAY_MS: u32 = 100;

} // verus!
