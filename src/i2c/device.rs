//! The TF-Luna controller.
use vstd::prelude::*;

use crate::i2c::codec::{
    combine_buffer_into_word, firmware_version_of, is_valid_framerate, is_valid_slave_address, ranging_mode_value,
    split_word, word_bytes, word_of,
};
use crate::i2c::bus::{BusOp, Delay, Fault, I2cBus};
use crate::i2c::constants;
use crate::i2c::protocol::{
    byte_plan, decoded, issued, last_data, lemma_issued_chain, lemma_issued_stops, measured, power_mode_plan,
    power_mode_result, ran, ranging_mode_result, read_once, ultra_low_power_plan, word_plan, Step,
};
use crate::i2c::types::{Address, Error, Register};
use crate::types::{FirmwareVersion, PowerMode, RangingMode, SensorReading, SerialNumber, Signature};

verus! {

/// TF-Luna controller: the bus, the device's address, and a delay.
///
/// The controller keeps no device state: every query goes to the device. It records, as ghost
/// state, every operation it issues on the bus or the delay.
pub struct TFLuna<I2C: I2cBus, D: Delay> {
    /// The bus the device is on.
    i2c: I2C,
    /// The device's address.
    address: Address,
    /// The delay used to wait for the device.
    delay: D,
    /// Every operation issued so far, oldest first.
    ops: Ghost<Seq<BusOp<I2C::Error>>>,
}

impl<I2C: I2cBus, D: Delay> TFLuna<I2C, D> {
    /// Every operation this controller has issued on its bus or its delay, oldest first.
    pub closed spec fn ops(&self) -> Seq<BusOp<I2C::Error>> {
        self.ops@
    }

    /// The address of the device this controller talks to.
    pub closed spec fn device_address(&self) -> u8 {
        self.address@
    }

    /// Create a controller for the device at `address` on `i2c`. Nothing is sent on the bus.
    pub fn new(i2c: I2C, address: Address, delay: D) -> (r: Result<Self, Error<I2C::Error>>)
        ensures
            r matches Ok(sensor) && sensor.ops() == Seq::<BusOp<I2C::Error>>::empty()
                && sensor.device_address() == address@,
    {
        let sensor = Self { i2c, address, delay, ops: Ghost(Seq::empty()) };
        Ok(sensor)
    }

    /// Pair a failed transaction's error with the bus's verdict on whether it is a
    /// no-acknowledge.
    fn fault(error: I2C::Error) -> (f: Fault<I2C::Error>)
        ensures
            f.error == error,
    {
        let no_acknowledge = I2C::is_no_acknowledge(&error);
        Fault { error, no_acknowledge }
    }

    /// Read `N` bytes starting at `register`, in one write-then-read transaction.
    fn read<const N: usize>(&mut self, register: Register) -> (r: Result<[u8; N], Fault<I2C::Error>>)
        ensures
            final(self).device_address() == old(self).device_address(),
            read_once(old(self).ops(), final(self).ops(), old(self).device_address(), register, N as nat),
            final(self).ops() == old(self).ops().push(
                BusOp::WriteRead {
                    address: old(self).device_address(),
                    bytes: seq![register.spec_offset()],
                    data: match r {
                        Ok(buffer) => Ok(buffer@),
                        Err(f) => Err(f),
                    },
                },
            ),
    {
        let ghost before = self.ops@;
        let mut buffer = [0u8; N];
        let bytes = [register.offset()];
        assert(bytes@ =~= seq![register.spec_offset()]);
        let r = match self.i2c.write_read(self.address.0, &bytes, &mut buffer) {
            Ok(()) => {
                self.ops = Ghost(
                    self.ops@.push(BusOp::WriteRead { address: self.address@, bytes: bytes@, data: Ok(buffer@) }),
                );
                Ok(buffer)
            },
            Err(e) => {
                let f = Self::fault(e);
                self.ops = Ghost(
                    self.ops@.push(BusOp::WriteRead { address: self.address@, bytes: bytes@, data: Err(f) }),
                );
                Err(f)
            },
        };
        assert(self.ops@.drop_last() =~= before);
        r
    }

    /// Write `buffer` (register offset first) in one transaction.
    fn write<const N: usize>(&mut self, buffer: &[u8; N]) -> (r: Result<(), Error<I2C::Error>>)
        ensures
            final(self).device_address() == old(self).device_address(),
            issued(old(self).ops(), final(self).ops(), seq![Step::Send(buffer@)], old(self).device_address(), r),
    {
        let ghost before = self.ops@;
        let r = match self.i2c.write(self.address.0, buffer) {
            Ok(()) => {
                self.ops = Ghost(self.ops@.push(BusOp::Write { address: self.address@, bytes: buffer@, result: Ok(()) }));
                Ok(())
            },
            Err(e) => {
                let f = Self::fault(e);
                self.ops = Ghost(self.ops@.push(BusOp::Write { address: self.address@, bytes: buffer@, result: Err(f) }));
                Err(Error::I2c(f.error))
            },
        };
        proof {
            reveal_with_fuel(ran, 2);
            assert(self.ops@.subrange(0, before.len() as int) =~= before);
            assert(self.ops@.subrange(before.len() as int, self.ops@.len() as int) =~= seq![self.ops@.last()]);
        }
        r
    }

    /// Pause for `ms` milliseconds.
    fn pause(&mut self, ms: u32)
        ensures
            final(self).device_address() == old(self).device_address(),
            final(self).ops() == old(self).ops().push(BusOp::Delay { ms }),
    {
        self.delay.delay_ms(ms);
        self.ops = Ghost(self.ops@.push(BusOp::Delay { ms }));
    }

    /// Write a byte to a single register.
    fn write_byte(&mut self, register: Register, content: u8) -> (r: Result<(), Error<I2C::Error>>)
        ensures
            final(self).device_address() == old(self).device_address(),
            issued(old(self).ops(), final(self).ops(), byte_plan(register, content), old(self).device_address(), r),
    {
        let buffer = [register.offset(), content];
        assert(buffer@ =~= seq![register.spec_offset(), content]);
        self.write(&buffer)
    }

    /// Read the contents of a single register.
    fn read_byte(&mut self, register: Register) -> (r: Result<u8, Fault<I2C::Error>>)
        ensures
            final(self).device_address() == old(self).device_address(),
            read_once(old(self).ops(), final(self).ops(), old(self).device_address(), register, 1),
            final(self).ops() == old(self).ops().push(
                BusOp::WriteRead {
                    address: old(self).device_address(),
                    bytes: seq![register.spec_offset()],
                    data: match r {
                        Ok(b) => Ok(seq![b]),
                        Err(f) => Err(f),
                    },
                },
            ),
    {
        match self.read::<1>(register) {
            Ok(buffer) => {
                assert(buffer@ =~= seq![buffer[0]]);
                Ok(buffer[0])
            },
            Err(f) => Err(f),
        }
    }

    /// Read a word (two bytes, low byte first) from two consecutive registers starting at
    /// `register`.
    fn read_word(&mut self, register: Register) -> (r: Result<u16, Error<I2C::Error>>)
        ensures
            final(self).device_address() == old(self).device_address(),
            read_once(old(self).ops(), final(self).ops(), old(self).device_address(), register, 2),
            r == decoded(last_data(final(self).ops()), |b: Seq<u8>| word_of(b[0], b[1])),
    {
        match self.read::<2>(register) {
            Ok(buffer) => Ok(combine_buffer_into_word(&buffer)),
            Err(f) => Err(Error::I2c(f.error)),
        }
    }

    /// Write a word into two consecutive registers starting at `register`: the low byte at
    /// `register`, the high byte at the next one, in one transaction.
    fn write_word(&mut self, register: Register, value: u16) -> (r: Result<(), Error<I2C::Error>>)
        ensures
            final(self).device_address() == old(self).device_address(),
            issued(old(self).ops(), final(self).ops(), word_plan(register, value), old(self).device_address(), r),
    {
        let word = split_word(value);
        let buffer = [register.offset(), word[0], word[1]];
        assert(buffer@ =~= seq![register.spec_offset()] + word_bytes(value));
        self.write(&buffer)
    }

    /// Restore all settings to their factory defaults.
    pub fn restore_factory_defaults(&mut self) -> (r: Result<(), Error<I2C::Error>>)
        ensures
            final(self).device_address() == old(self).device_address(),
            issued(
                old(self).ops(),
                final(self).ops(),
                byte_plan(Register::RestoreFactoryDefaults, constants::RESTORE_FACTORY_DEFAULTS_COMMAND_VALUE),
                old(self).device_address(),
                r,
            ),
    {
        self.write_byte(Register::RestoreFactoryDefaults, constants::RESTORE_FACTORY_DEFAULTS_COMMAND_VALUE)
    }

    /// Save the current settings to the device's persistent storage.
    pub fn save_settings(&mut self) -> (r: Result<(), Error<I2C::Error>>)
        ensures
            final(self).device_address() == old(self).device_address(),
            issued(
                old(self).ops(),
                final(self).ops(),
                byte_plan(Register::Save, constants::SAVE_COMMAND_VALUE),
                old(self).device_address(),
                r,
            ),
    {
        self.write_byte(Register::Save, constants::SAVE_COMMAND_VALUE)
    }

    /// Enable the device's measurements.
    pub fn enable(&mut self) -> (r: Result<(), Error<I2C::Error>>)
        ensures
            final(self).device_address() == old(self).device_address(),
            issued(
                old(self).ops(),
                final(self).ops(),
                byte_plan(Register::Enable, constants::ENABLE_COMMAND_VALUE),
                old(self).device_address(),
                r,
            ),
    {
        self.write_byte(Register::Enable, constants::ENABLE_COMMAND_VALUE)
    }

    /// Disable the device's measurements.
    pub fn disable(&mut self) -> (r: Result<(), Error<I2C::Error>>)
        ensures
            final(self).device_address() == old(self).device_address(),
            issued(
                old(self).ops(),
                final(self).ops(),
                byte_plan(Register::Enable, constants::DISABLE_COMMAND_VALUE),
                old(self).device_address(),
                r,
            ),
    {
        self.write_byte(Register::Enable, constants::DISABLE_COMMAND_VALUE)
    }

    /// Reboot the device.
    pub fn reboot(&mut self) -> (r: Result<(), Error<I2C::Error>>)
        ensures
            final(self).device_address() == old(self).device_address(),
            issued(
                old(self).ops(),
                final(self).ops(),
                byte_plan(Register::ShutdownReboot, constants::REBOOT_COMMAND_VALUE),
                old(self).device_address(),
                r,
            ),
    {
        self.write_byte(Register::ShutdownReboot, constants::REBOOT_COMMAND_VALUE)
    }

    /// Get the device's firmware version.
    pub fn get_firmware_version(&mut self) -> (r: Result<FirmwareVersion, Error<I2C::Error>>)
        ensures
            final(self).device_address() == old(self).device_address(),
            read_once(old(self).ops(), final(self).ops(), old(self).device_address(), Register::FirmwareVersion, 3),
            r == decoded(last_data(final(self).ops()), |b: Seq<u8>| firmware_version_of(b)),
    {
        match self.read::<3>(Register::FirmwareVersion) {
            Ok(buffer) => {
                let version = FirmwareVersion { major: buffer[2], minor: buffer[1], revision: buffer[0] };
                Ok(version)
            },
            Err(f) => Err(Error::I2c(f.error)),
        }
    }

    /// Get the device's serial number: 14 ASCII bytes, as the device holds them.
    pub fn get_serial_number(&mut self) -> (r: Result<SerialNumber, Error<I2C::Error>>)
        ensures
            final(self).device_address() == old(self).device_address(),
            read_once(old(self).ops(), final(self).ops(), old(self).device_address(), Register::SerialNumber, 14),
            match last_data(final(self).ops()) {
                Ok(bytes) => r matches Ok(serial) && serial.0@ == bytes,
                Err(f) => r == Err::<SerialNumber, Error<I2C::Error>>(Error::I2c(f.error)),
            },
    {
        match self.read::<14>(Register::SerialNumber) {
            Ok(buffer) => Ok(SerialNumber(buffer)),
            Err(f) => Err(Error::I2c(f.error)),
        }
    }

    /// Get the device's signature: 4 ASCII bytes, 'L', 'U', 'N', 'A' on a TF-Luna. The driver
    /// does not check it.
    pub fn get_signature(&mut self) -> (r: Result<Signature, Error<I2C::Error>>)
        ensures
            final(self).device_address() == old(self).device_address(),
            read_once(old(self).ops(), final(self).ops(), old(self).device_address(), Register::Signature, 4),
            match last_data(final(self).ops()) {
                Ok(bytes) => r matches Ok(signature) && signature.0@ == bytes,
                Err(f) => r == Err::<Signature, Error<I2C::Error>>(Error::I2c(f.error)),
            },
    {
        match self.read::<4>(Register::Signature) {
            Ok(buffer) => Ok(Signature(buffer)),
            Err(f) => Err(Error::I2c(f.error)),
        }
    }

    /// Get the I2C slave address that the device holds.
    pub fn get_slave_address(&mut self) -> (r: Result<u8, Error<I2C::Error>>)
        ensures
            final(self).device_address() == old(self).device_address(),
            read_once(old(self).ops(), final(self).ops(), old(self).device_address(), Register::SlaveAddress, 1),
            r == decoded(last_data(final(self).ops()), |b: Seq<u8>| b[0]),
    {
        match self.read_byte(Register::SlaveAddress) {
            Ok(value) => Ok(value),
            Err(f) => Err(Error::I2c(f.error)),
        }
    }

    /// Set the device's I2C slave address; it must lie in [0x08, 0x77], else nothing is sent
    /// and `InvalidParameter` is returned.
    ///
    /// The new address applies to the device only: talking to it there takes a new controller.
    pub fn set_slave_address(&mut self, address: u8) -> (r: Result<(), Error<I2C::Error>>)
        ensures
            final(self).device_address() == old(self).device_address(),
            if is_valid_slave_address(address) {
                issued(
                    old(self).ops(),
                    final(self).ops(),
                    byte_plan(Register::SlaveAddress, address),
                    old(self).device_address(),
                    r,
                )
            } else {
                final(self).ops() == old(self).ops() && r == Err::<(), Error<I2C::Error>>(Error::InvalidParameter)
            },
    {
        if address < constants::SLAVE_ADDRESS_MINIMUM_VALUE || address > constants::SLAVE_ADDRESS_MAXIMUM_VALUE {
            return Err(Error::InvalidParameter);
        }
        self.write_byte(Register::SlaveAddress, address)
    }

    /// Get the device's power mode.
    ///
    /// A read that the device does not acknowledge means it sleeps in ultra-low power mode:
    /// that is `UltraLow`, not an error. Other bus errors are returned as they are. Reading
    /// wakes a sleeping device, so avoid frequent calls where ultra-low power is wanted.
    pub fn get_power_mode(&mut self) -> (r: Result<PowerMode, Error<I2C::Error>>)
        ensures
            final(self).device_address() == old(self).device_address(),
            read_once(old(self).ops(), final(self).ops(), old(self).device_address(), Register::PowerSavingMode, 1),
            r == power_mode_result(last_data(final(self).ops())),
    {
        match self.read_byte(Register::PowerSavingMode) {
            Ok(0x00) => Ok(PowerMode::Normal),
            Ok(0x01) => Ok(PowerMode::PowerSaving),
            Ok(value) => Err(Error::InvalidData(value)),
            Err(f) => {
                if f.no_acknowledge {
                    Ok(PowerMode::UltraLow)
                } else {
                    Err(Error::I2c(f.error))
                }
            },
        }
    }

    /// Set the device's power mode.
    ///
    /// Normal and power saving modes: wake the device, write the mode to the power-saving
    /// register, then clear ultra-low power, save the settings and reboot, and wait for the
    /// reboot. Ultra-low power mode: set it, save and reboot, and wait. Every change ends with a
    /// settle pause. The first failed step ends the change with its error.
    pub fn set_power_mode(&mut self, mode: PowerMode) -> (r: Result<(), Error<I2C::Error>>)
        ensures
            final(self).device_address() == old(self).device_address(),
            issued(old(self).ops(), final(self).ops(), power_mode_plan(mode), old(self).device_address(), r),
    {
        let ghost o0 = self.ops@;
        let ghost address = self.address@;
        let ghost settle = seq![Step::Pause(constants::POWER_MODE_SETTLE_DELAY_MS)];
        let ghost (first, second) = match mode {
            PowerMode::Normal => (
                seq![Step::Wake] + byte_plan(Register::PowerSavingMode, constants::NORMAL_POWER_MODE_COMMAND_VALUE),
                ultra_low_power_plan(constants::NORMAL_POWER_MODE_COMMAND_VALUE),
            ),
            PowerMode::PowerSaving => (
                seq![Step::Wake] + byte_plan(Register::PowerSavingMode, constants::POWER_SAVING_POWER_MODE_COMMAND_VALUE),
                ultra_low_power_plan(constants::NORMAL_POWER_MODE_COMMAND_VALUE),
            ),
            PowerMode::UltraLow => (ultra_low_power_plan(constants::ULTRA_LOW_POWER_MODE_COMMAND_VALUE), Seq::empty()),
        };
        assert(power_mode_plan(mode) =~= first + second + settle);
        let r1 = match mode {
            PowerMode::Normal => self.wake_and_select(constants::NORMAL_POWER_MODE_COMMAND_VALUE),
            PowerMode::PowerSaving => self.wake_and_select(constants::POWER_SAVING_POWER_MODE_COMMAND_VALUE),
            PowerMode::UltraLow => self.enable_ultra_low_power_mode(),
        };
        if r1.is_err() {
            proof {
                lemma_issued_stops(o0, self.ops@, first, second + settle, address, r1);
                assert(first + (second + settle) =~= power_mode_plan(mode));
            }
            return r1;
        }
        let ghost o1 = self.ops@;
        let r2 = match mode {
            PowerMode::UltraLow => {
                proof {
                    assert(ran(second, address, o1.subrange(o1.len() as int, o1.len() as int), Ok(())));
                    assert(o1.subrange(0, o1.len() as int) =~= o1);
                }
                Ok(())
            },
            _ => self.disable_ultra_low_power_mode(),
        };
        proof {
            lemma_issued_chain(o0, o1, self.ops@, first, second, address, r1, r2);
        }
        if r2.is_err() {
            proof {
                lemma_issued_stops(o0, self.ops@, first + second, settle, address, r2);
            }
            return r2;
        }
        let ghost o2 = self.ops@;
        self.pause(constants::POWER_MODE_SETTLE_DELAY_MS);
        proof {
            reveal_with_fuel(ran, 2);
            assert(self.ops@.subrange(0, o2.len() as int) =~= o2);
            assert(self.ops@.subrange(o2.len() as int, self.ops@.len() as int) =~= seq![self.ops@.last()]);
            lemma_issued_chain(o0, o2, self.ops@, first + second, settle, address, r2, Ok(()));
        }
        Ok(())
    }

    /// Wake the device, then write `value` (normal or power saving) to the power-saving
    /// register.
    fn wake_and_select(&mut self, value: u8) -> (r: Result<(), Error<I2C::Error>>)
        ensures
            final(self).device_address() == old(self).device_address(),
            issued(
                old(self).ops(),
                final(self).ops(),
                seq![Step::Wake] + byte_plan(Register::PowerSavingMode, value),
                old(self).device_address(),
                r,
            ),
    {
        let ghost o0 = self.ops@;
        let ghost select = byte_plan(Register::PowerSavingMode, value);
        let r1 = self.wake_from_ultra_low_power();
        if r1.is_err() {
            proof {
                lemma_issued_stops(o0, self.ops@, seq![Step::Wake], select, self.address@, r1);
            }
            return r1;
        }
        let ghost o1 = self.ops@;
        let r = self.write_byte(Register::PowerSavingMode, value);
        proof {
            lemma_issued_chain(o0, o1, self.ops@, seq![Step::Wake], select, self.address@, r1, r);
        }
        r
    }

    /// Write `ultra_low` to the ultra-low power register, save and reboot in one transaction,
    /// then wait for the reboot.
    fn write_ultra_low_power_mode(&mut self, ultra_low: u8) -> (r: Result<(), Error<I2C::Error>>)
        ensures
            final(self).device_address() == old(self).device_address(),
            issued(old(self).ops(), final(self).ops(), ultra_low_power_plan(ultra_low), old(self).device_address(), r),
    {
        let ghost o0 = self.ops@;
        let buffer = [
            Register::UltraLowPowerMode.offset(),
            ultra_low,
            constants::SAVE_COMMAND_VALUE,
            constants::REBOOT_COMMAND_VALUE,
        ];
        let ghost send = seq![Step::Send(buffer@)];
        let ghost wait = seq![Step::Pause(constants::REBOOT_DELAY_MS)];
        assert(ultra_low_power_plan(ultra_low) =~= send + wait);
        let r = self.write(&buffer);
        if r.is_err() {
            proof {
                lemma_issued_stops(o0, self.ops@, send, wait, self.address@, r);
            }
            return r;
        }
        let ghost o1 = self.ops@;
        self.pause(constants::REBOOT_DELAY_MS);
        proof {
            reveal_with_fuel(ran, 2);
            assert(self.ops@.subrange(0, o1.len() as int) =~= o1);
            assert(self.ops@.subrange(o1.len() as int, self.ops@.len() as int) =~= seq![self.ops@.last()]);
            lemma_issued_chain(o0, o1, self.ops@, send, wait, self.address@, r, Ok(()));
        }
        Ok(())
    }

    /// Enter ultra-low power mode: set it, save and reboot, then wait for the reboot.
    fn enable_ultra_low_power_mode(&mut self) -> (r: Result<(), Error<I2C::Error>>)
        ensures
            final(self).device_address() == old(self).device_address(),
            issued(
                old(self).ops(),
                final(self).ops(),
                ultra_low_power_plan(constants::ULTRA_LOW_POWER_MODE_COMMAND_VALUE),
                old(self).device_address(),
                r,
            ),
    {
        self.write_ultra_low_power_mode(constants::ULTRA_LOW_POWER_MODE_COMMAND_VALUE)
    }

    /// Leave ultra-low power mode: clear it, save and reboot, then wait for the reboot. This
    /// also saves whatever was written before it, such as the power-saving register.
    fn disable_ultra_low_power_mode(&mut self) -> (r: Result<(), Error<I2C::Error>>)
        ensures
            final(self).device_address() == old(self).device_address(),
            issued(
                old(self).ops(),
                final(self).ops(),
                ultra_low_power_plan(constants::NORMAL_POWER_MODE_COMMAND_VALUE),
                old(self).device_address(),
                r,
            ),
    {
        self.write_ultra_low_power_mode(constants::NORMAL_POWER_MODE_COMMAND_VALUE)
    }

    /// Wake the device from ultra-low power mode.
    ///
    /// Reads a register: if the device answers, it was awake and nothing more is done. If it
    /// does not acknowledge, it was asleep and is now waking: wait 12 ms for it to settle. Any
    /// other bus error is returned.
    pub fn wake_from_ultra_low_power(&mut self) -> (r: Result<(), Error<I2C::Error>>)
        ensures
            final(self).device_address() == old(self).device_address(),
            issued(old(self).ops(), final(self).ops(), seq![Step::Wake], old(self).device_address(), r),
    {
        let ghost o0 = self.ops@;
        let r = match self.read_byte(Register::Distance) {
            Ok(_) => Ok(()),
            Err(f) => {
                if f.no_acknowledge {
                    self.pause(constants::WAKE_DELAY_MS);
                    Ok(())
                } else {
                    Err(Error::I2c(f.error))
                }
            },
        };
        proof {
            reveal_with_fuel(ran, 2);
            let done = self.ops@.subrange(o0.len() as int, self.ops@.len() as int);
            assert(self.ops@.subrange(0, o0.len() as int) =~= o0);
            assert(done[0] == self.ops@[o0.len() as int]);
            if done.len() == 2 {
                assert(done[1] == self.ops@[o0.len() as int + 1]);
                assert(done.skip(2) =~= Seq::<BusOp<I2C::Error>>::empty());
            } else {
                assert(done.drop_first() =~= Seq::<BusOp<I2C::Error>>::empty());
            }
        }
        r
    }

    /// Get the device's ranging mode.
    pub fn get_ranging_mode(&mut self) -> (r: Result<RangingMode, Error<I2C::Error>>)
        ensures
            final(self).device_address() == old(self).device_address(),
            read_once(old(self).ops(), final(self).ops(), old(self).device_address(), Register::RangingMode, 1),
            r == ranging_mode_result(last_data(final(self).ops())),
    {
        match self.read_byte(Register::RangingMode) {
            Ok(0x00) => Ok(RangingMode::Continuous),
            Ok(0x01) => Ok(RangingMode::Trigger),
            Ok(value) => Err(Error::InvalidData(value)),
            Err(f) => Err(Error::I2c(f.error)),
        }
    }

    /// Set the device's ranging mode. In trigger mode, call `trigger_measurement` before each
    /// measurement.
    pub fn set_ranging_mode(&mut self, mode: RangingMode) -> (r: Result<(), Error<I2C::Error>>)
        ensures
            final(self).device_address() == old(self).device_address(),
            issued(
                old(self).ops(),
                final(self).ops(),
                byte_plan(Register::RangingMode, ranging_mode_value(mode)),
                old(self).device_address(),
                r,
            ),
    {
        let value: u8 = match mode {
            RangingMode::Continuous => 0,
            RangingMode::Trigger => 1,
        };
        self.write_byte(Register::RangingMode, value)
    }

    /// Get the measurement framerate in Hz.
    pub fn get_framerate(&mut self) -> (r: Result<u16, Error<I2C::Error>>)
        ensures
            final(self).device_address() == old(self).device_address(),
            read_once(old(self).ops(), final(self).ops(), old(self).device_address(), Register::Framerate, 2),
            r == decoded(last_data(final(self).ops()), |b: Seq<u8>| word_of(b[0], b[1])),
    {
        self.read_word(Register::Framerate)
    }

    /// Set the measurement framerate in Hz: 0 (the device's default), or a divisor of 500
    /// below 500. Any other value is rejected with `InvalidParameter` before anything is sent.
    pub fn set_framerate(&mut self, value: u16) -> (r: Result<(), Error<I2C::Error>>)
        ensures
            final(self).device_address() == old(self).device_address(),
            if is_valid_framerate(value) {
                issued(old(self).ops(), final(self).ops(), word_plan(Register::Framerate, value), old(self).device_address(), r)
            } else {
                final(self).ops() == old(self).ops() && r == Err::<(), Error<I2C::Error>>(Error::InvalidParameter)
            },
    {
        if value == 0 || (value < constants::SAMPLING_RATE_HZ && constants::SAMPLING_RATE_HZ % value == 0) {
            self.write_word(Register::Framerate, value)
        } else {
            Err(Error::InvalidParameter)
        }
    }

    /// Get the signal strength threshold. Below ten times the threshold, the device reports
    /// the dummy distance instead of the measured one.
    pub fn get_signal_strength_threshold(&mut self) -> (r: Result<u16, Error<I2C::Error>>)
        ensures
            final(self).device_address() == old(self).device_address(),
            read_once(old(self).ops(), final(self).ops(), old(self).device_address(), Register::SignalStrengthThreshold, 2),
            r == decoded(last_data(final(self).ops()), |b: Seq<u8>| word_of(b[0], b[1])),
    {
        self.read_word(Register::SignalStrengthThreshold)
    }

    /// Set the signal strength threshold.
    pub fn set_signal_strength_threshold(&mut self, value: u16) -> (r: Result<(), Error<I2C::Error>>)
        ensures
            final(self).device_address() == old(self).device_address(),
            issued(
                old(self).ops(),
                final(self).ops(),
                word_plan(Register::SignalStrengthThreshold, value),
                old(self).device_address(),
                r,
            ),
    {
        self.write_word(Register::SignalStrengthThreshold, value)
    }

    /// Get the dummy distance: the distance reported when the signal is too weak.
    pub fn get_dummy_distance(&mut self) -> (r: Result<u16, Error<I2C::Error>>)
        ensures
            final(self).device_address() == old(self).device_address(),
            read_once(old(self).ops(), final(self).ops(), old(self).device_address(), Register::DummyDistance, 2),
            r == decoded(last_data(final(self).ops()), |b: Seq<u8>| word_of(b[0], b[1])),
    {
        self.read_word(Register::DummyDistance)
    }

    /// Set the dummy distance.
    pub fn set_dummy_distance(&mut self, value: u16) -> (r: Result<(), Error<I2C::Error>>)
        ensures
            final(self).device_address() == old(self).device_address(),
            issued(
                old(self).ops(),
                final(self).ops(),
                word_plan(Register::DummyDistance, value),
                old(self).device_address(),
                r,
            ),
    {
        self.write_word(Register::DummyDistance, value)
    }

    /// Get the minimum distance setting.
    pub fn get_minimum_distance(&mut self) -> (r: Result<u16, Error<I2C::Error>>)
        ensures
            final(self).device_address() == old(self).device_address(),
            read_once(old(self).ops(), final(self).ops(), old(self).device_address(), Register::MinimumDistance, 2),
            r == decoded(last_data(final(self).ops()), |b: Seq<u8>| word_of(b[0], b[1])),
    {
        self.read_word(Register::MinimumDistance)
    }

    /// Set the minimum distance; measurements below it may be filtered.
    pub fn set_minimum_distance(&mut self, value: u16) -> (r: Result<(), Error<I2C::Error>>)
        ensures
            final(self).device_address() == old(self).device_address(),
            issued(
                old(self).ops(),
                final(self).ops(),
                word_plan(Register::MinimumDistance, value),
                old(self).device_address(),
                r,
            ),
    {
        self.write_word(Register::MinimumDistance, value)
    }

    /// Get the maximum distance setting.
    pub fn get_maximum_distance(&mut self) -> (r: Result<u16, Error<I2C::Error>>)
        ensures
            final(self).device_address() == old(self).device_address(),
            read_once(old(self).ops(), final(self).ops(), old(self).device_address(), Register::MaximumDistance, 2),
            r == decoded(last_data(final(self).ops()), |b: Seq<u8>| word_of(b[0], b[1])),
    {
        self.read_word(Register::MaximumDistance)
    }

    /// Set the maximum distance; measurements above it may be filtered.
    pub fn set_maximum_distance(&mut self, value: u16) -> (r: Result<(), Error<I2C::Error>>)
        ensures
            final(self).device_address() == old(self).device_address(),
            issued(
                old(self).ops(),
                final(self).ops(),
                word_plan(Register::MaximumDistance, value),
                old(self).device_address(),
                r,
            ),
    {
        self.write_word(Register::MaximumDistance, value)
    }

    /// Get the device's error code.
    pub fn get_error(&mut self) -> (r: Result<u16, Error<I2C::Error>>)
        ensures
            final(self).device_address() == old(self).device_address(),
            read_once(old(self).ops(), final(self).ops(), old(self).device_address(), Register::Error, 2),
            r == decoded(last_data(final(self).ops()), |b: Seq<u8>| word_of(b[0], b[1])),
    {
        self.read_word(Register::Error)
    }

    /// Take a complete measurement: distance, signal strength, temperature, timestamp and
    /// error, read in one transaction of ten bytes so that all five come from the same
    /// sampling instant.
    pub fn get_measurement(&mut self) -> (r: Result<SensorReading, Error<I2C::Error>>)
        ensures
            final(self).device_address() == old(self).device_address(),
            measured(old(self).ops(), final(self).ops(), old(self).device_address(), r),
    {
        match self.read::<10>(Register::Distance) {
            Ok(buffer) => {
                let distance = combine_buffer_into_word(&[buffer[0], buffer[1]]);
                let signal_strength = combine_buffer_into_word(&[buffer[2], buffer[3]]);
                let temperature = combine_buffer_into_word(&[buffer[4], buffer[5]]);
                let timestamp = combine_buffer_into_word(&[buffer[6], buffer[7]]);
                let error = combine_buffer_into_word(&[buffer[8], buffer[9]]);
                Ok(SensorReading { distance, signal_strength, temperature, timestamp, error })
            },
            Err(f) => Err(Error::I2c(f.error)),
        }
    }

    /// Trigger one measurement; only effective in trigger ranging mode.
    pub fn trigger_measurement(&mut self) -> (r: Result<(), Error<I2C::Error>>)
        ensures
            final(self).device_address() == old(self).device_address(),
            issued(
                old(self).ops(),
                final(self).ops(),
                byte_plan(Register::Trigger, constants::TRIGGER_COMMAND_VALUE),
                old(self).device_address(),
                r,
            ),
    {
        self.write_byte(Register::Trigger, constants::TRIGGER_COMMAND_VALUE)
    }
}

} // verus!
