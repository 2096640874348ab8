//! Wire format: little-endian words across register pairs, and what each block of register
//! bytes means.
use vstd::prelude::*;

use crate::i2c::constants::{SAMPLING_RATE_HZ, SLAVE_ADDRESS_MAXIMUM_VALUE, SLAVE_ADDRESS_MINIMUM_VALUE};
use crate::types::{FirmwareVersion, PowerMode, RangingMode, SensorReading};

verus! {

/// The 16-bit value whose low byte is `low` and high byte is `high`.
pub open spec fn word_of(low: u8, high: u8) -> u16 {
    (low as int + 256 * (high as int)) as u16
}

/// The two bytes of `value`, low byte first.
pub open spec fn word_bytes(value: u16) -> Seq<u8> {
    seq![(value % 256) as u8, (value / 256) as u8]
}

/// Combine two bytes into a 16-bit word: `buffer[0]` is the low byte, `buffer[1]` the high one.
pub fn combine_buffer_into_word(buffer: &[u8; 2]) -> (r: u16)
    ensures
        r == word_of(buffer[0], buffer[1]),
{
    buffer[0] as u16 + (buffer[1] as u16) * 256
}

/// Split a 16-bit word into its two bytes, low byte first.
pub fn split_word(value: u16) -> (r: [u8; 2])
    ensures
        r@ == word_bytes(value),
{
    let r = [(value % 256) as u8, (value / 256) as u8];
    assert(r@ =~= word_bytes(value));
    r
}

/// Splitting a word into its bytes and combining them again gives the word back.
pub proof fn lemma_word_round_trip(value: u16)
    ensures
        word_of(word_bytes(value)[0], word_bytes(value)[1]) == value,
{
}

/// A framerate the device accepts: 0 (the device's default) or a divisor of the 500 Hz
/// sampling rate below 500.
pub open spec fn is_valid_framerate(value: u16) -> bool {
    value == 0 || (value < SAMPLING_RATE_HZ && SAMPLING_RATE_HZ % value == 0)
}

/// A slave address the device accepts: 0x08 to 0x77.
pub open spec fn is_valid_slave_address(address: u8) -> bool {
    SLAVE_ADDRESS_MINIMUM_VALUE <= address <= SLAVE_ADDRESS_MAXIMUM_VALUE
}

/// The firmware version in three register bytes: revision, minor, major.
pub open spec fn firmware_version_of(bytes: Seq<u8>) -> FirmwareVersion {
    FirmwareVersion { major: bytes[2], minor: bytes[1], revision: bytes[0] }
}

/// The measurement in ten register bytes: distance, signal strength, temperature, timestamp
/// and error, each a little-endian word.
pub open spec fn reading_of(bytes: Seq<u8>) -> SensorReading {
    SensorReading {
        distance: word_of(bytes[0], bytes[1]),
        signal_strength: word_of(bytes[2], bytes[3]),
        temperature: word_of(bytes[4], bytes[5]),
        timestamp: word_of(bytes[6], bytes[7]),
        error: word_of(bytes[8], bytes[9]),
    }
}

/// The power mode that the power-saving register value stands for, if any.
pub open spec fn power_mode_of(value: u8) -> Option<PowerMode> {
    if value == 0 {
        Some(PowerMode::Normal)
    } else if value == 1 {
        Some(PowerMode::PowerSaving)
    } else {
        None
    }
}

/// The ranging mode that the ranging mode register value stands for, if any.
pub open spec fn ranging_mode_of(value: u8) -> Option<RangingMode> {
    if value == 0 {
        Some(RangingMode::Continuous)
    } else if value == 1 {
        Some(RangingMode::Trigger)
    } else {
        None
    }
}

/// The ranging mode register value of `mode`.
pub open spec fn ranging_mode_value(mode: RangingMode) -> u8 {
    match mode {
        RangingMode::Continuous => 0,
        RangingMode::Trigger => 1,
    }
}

} // verus!
