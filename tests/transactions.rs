//! Exact bus transactions of each controller method, against a scripted bus.
use std::cell::RefCell;
use std::collections::VecDeque;
use std::rc::Rc;

use embedded_tfluna::i2c::codec::{combine_buffer_into_word, split_word};
use embedded_tfluna::i2c::{Address, Delay, Error, I2cBus, Register, TFLuna, DEFAULT_SLAVE_ADDRESS};
use embedded_tfluna::{FirmwareVersion, PowerMode, RangingMode, SensorReading, SerialNumber, Signature};

#[derive(Debug, Clone, Copy, PartialEq)]
enum BusFailure {
    NoAcknowledge,
    ArbitrationLoss,
}

#[derive(Debug, Clone, PartialEq)]
enum Event {
    Write(u8, Vec<u8>),
    Read(u8, Vec<u8>, usize),
    Delay(u32),
}

/// What the bus answers to the next transaction.
enum Reply {
    Done,
    Data(Vec<u8>),
    Fail(BusFailure),
}

#[derive(Clone, Default)]
struct Script {
    events: Rc<RefCell<Vec<Event>>>,
    replies: Rc<RefCell<VecDeque<Reply>>>,
}

impl Script {
    fn new(replies: Vec<Reply>) -> Script {
        Script { events: Rc::default(), replies: Rc::new(RefCell::new(replies.into_iter().collect())) }
    }

    fn events(&self) -> Vec<Event> {
        self.events.borrow().clone()
    }

    fn next_reply(&self) -> Reply {
        self.replies.borrow_mut().pop_front().unwrap_or(Reply::Done)
    }

    fn device(&self) -> TFLuna<ScriptBus, ScriptDelay> {
        TFLuna::new(ScriptBus(self.clone()), Address::default(), ScriptDelay(self.clone())).unwrap()
    }
}

struct ScriptBus(Script);

struct ScriptDelay(Script);

impl I2cBus for ScriptBus {
    type Error = BusFailure;

    fn write(&mut self, address: u8, bytes: &[u8]) -> Result<(), BusFailure> {
        self.0.events.borrow_mut().push(Event::Write(address, bytes.to_vec()));
        match self.0.next_reply() {
            Reply::Fail(e) => Err(e),
            _ => Ok(()),
        }
    }

    fn write_read(&mut self, address: u8, bytes: &[u8], buffer: &mut [u8]) -> Result<(), BusFailure> {
        self.0.events.borrow_mut().push(Event::Read(address, bytes.to_vec(), buffer.len()));
        match self.0.next_reply() {
            Reply::Fail(e) => Err(e),
            Reply::Data(data) => {
                buffer.copy_from_slice(&data);
                Ok(())
            }
            Reply::Done => Ok(()),
        }
    }

    fn is_no_acknowledge(error: &BusFailure) -> bool {
        *error == BusFailure::NoAcknowledge
    }
}

impl Delay for ScriptDelay {
    fn delay_ms(&mut self, ms: u32) {
        self.0.events.borrow_mut().push(Event::Delay(ms));
    }
}

fn write(bytes: &[u8]) -> Event {
    Event::Write(DEFAULT_SLAVE_ADDRESS, bytes.to_vec())
}

fn read(register: u8, len: usize) -> Event {
    Event::Read(DEFAULT_SLAVE_ADDRESS, vec![register], len)
}

#[test]
fn test_enable_disable_blocking() {
    let script = Script::new(vec![]);
    let mut device = script.device();
    assert!(device.enable().is_ok());
    assert!(device.disable().is_ok());
    assert_eq!(script.events(), vec![write(&[0x25, 1]), write(&[0x25, 0])]);
}

#[test]
fn test_enable_twice_writes_twice() {
    let script = Script::new(vec![]);
    let mut device = script.device();
    assert!(device.enable().is_ok());
    assert!(device.enable().is_ok());
    assert_eq!(script.events(), vec![write(&[0x25, 1]), write(&[0x25, 1])]);
}

#[test]
fn test_reboot_blocking() {
    let script = Script::new(vec![]);
    let mut device = script.device();
    assert!(device.reboot().is_ok());
    assert_eq!(script.events(), vec![write(&[0x21, 2])]);
}

#[test]
fn test_command_writes() {
    let script = Script::new(vec![]);
    let mut device = script.device();
    device.restore_factory_defaults().unwrap();
    device.save_settings().unwrap();
    device.trigger_measurement().unwrap();
    device.set_ranging_mode(RangingMode::Trigger).unwrap();
    device.set_ranging_mode(RangingMode::Continuous).unwrap();
    assert_eq!(
        script.events(),
        vec![write(&[0x29, 1]), write(&[0x20, 1]), write(&[0x24, 1]), write(&[0x23, 1]), write(&[0x23, 0])]
    );
}

#[test]
fn test_word_writes_low_byte_first() {
    let script = Script::new(vec![]);
    let mut device = script.device();
    device.set_maximum_distance(9000).unwrap();
    device.set_minimum_distance(66).unwrap();
    device.set_dummy_distance(0x1234).unwrap();
    device.set_signal_strength_threshold(600).unwrap();
    device.set_framerate(250).unwrap();
    assert_eq!(
        script.events(),
        vec![
            write(&[0x30, 0x28, 0x23]),
            write(&[0x2E, 66, 0]),
            write(&[0x2C, 0x34, 0x12]),
            write(&[0x2A, 0x58, 0x02]),
            write(&[0x26, 250, 0]),
        ]
    );
}

#[test]
fn test_word_reads() {
    let script = Script::new(vec![
        Reply::Data(vec![0x28, 0x23]),
        Reply::Data(vec![66, 0]),
        Reply::Data(vec![0, 0]),
        Reply::Data(vec![100, 0]),
        Reply::Data(vec![0xFF, 0xFF]),
        Reply::Data(vec![250, 0]),
    ]);
    let mut device = script.device();
    assert_eq!(device.get_maximum_distance().unwrap(), 9000);
    assert_eq!(device.get_minimum_distance().unwrap(), 66);
    assert_eq!(device.get_dummy_distance().unwrap(), 0);
    assert_eq!(device.get_signal_strength_threshold().unwrap(), 100);
    assert_eq!(device.get_error().unwrap(), 0xFFFF);
    assert_eq!(device.get_framerate().unwrap(), 250);
    assert_eq!(
        script.events(),
        vec![read(0x30, 2), read(0x2E, 2), read(0x2C, 2), read(0x2A, 2), read(0x08, 2), read(0x26, 2)]
    );
}

#[test]
fn test_get_firmware_version_blocking() {
    let script = Script::new(vec![Reply::Data(vec![0, 1, 2])]);
    let mut device = script.device();
    let firmware_version = device.get_firmware_version();
    assert_eq!(firmware_version.unwrap(), FirmwareVersion { major: 2, minor: 1, revision: 0 });
    assert_eq!(script.events(), vec![read(0x0A, 3)]);
}

#[test]
fn test_get_firmware_version_reversed_order() {
    let script = Script::new(vec![Reply::Data(vec![3, 2, 1])]);
    let mut device = script.device();
    let firmware_version = device.get_firmware_version();
    assert_eq!(firmware_version.unwrap(), FirmwareVersion { major: 1, minor: 2, revision: 3 });
}

#[test]
fn test_get_serial_number_blocking() {
    let script = Script::new(vec![Reply::Data(vec![0; 14])]);
    let mut device = script.device();
    assert_eq!(device.get_serial_number().unwrap(), SerialNumber([0; 14]));
    assert_eq!(script.events(), vec![read(0x10, 14)]);
}

#[test]
fn test_get_serial_number_counting() {
    let bytes: [u8; 14] = core::array::from_fn(|i| i as u8 + 1);
    let script = Script::new(vec![Reply::Data(bytes.to_vec())]);
    let mut device = script.device();
    assert_eq!(device.get_serial_number().unwrap(), SerialNumber(bytes));
}

#[test]
fn test_get_signature_reads_four_bytes() {
    let script = Script::new(vec![Reply::Data(vec![76, 85, 78, 65])]);
    let mut device = script.device();
    assert_eq!(device.get_signature().unwrap(), Signature([76, 85, 78, 65]));
    assert_eq!(script.events(), vec![read(0x3C, 4)]);
}

#[test]
fn test_measure_blocking() {
    let script = Script::new(vec![Reply::Data(vec![10, 0, 0x64, 0, 0xB2, 0x0C, 0, 0, 0, 0])]);
    let mut device = script.device();
    let measurement = device.get_measurement().unwrap();
    assert_eq!(
        measurement,
        SensorReading { distance: 10, signal_strength: 100, temperature: 3250, timestamp: 0, error: 0 }
    );
    assert_eq!(measurement.temperature as f32 / 100.0, 32.5);
    assert_eq!(script.events(), vec![read(0x00, 10)]);
}

#[test]
fn test_measure_all_fields() {
    let script = Script::new(vec![Reply::Data(vec![1, 2, 3, 4, 5, 6, 7, 8, 9, 10])]);
    let mut device = script.device();
    assert_eq!(
        device.get_measurement().unwrap(),
        SensorReading { distance: 0x0201, signal_strength: 0x0403, temperature: 0x0605, timestamp: 0x0807, error: 0x0A09 }
    );
}

#[test]
fn test_measure_bus_error() {
    let script = Script::new(vec![Reply::Fail(BusFailure::ArbitrationLoss)]);
    let mut device = script.device();
    assert_eq!(device.get_measurement(), Err(Error::I2c(BusFailure::ArbitrationLoss)));
}

#[test]
fn test_invalid_framerate_blocking() {
    let script = Script::new(vec![]);
    let mut device = script.device();
    assert_eq!(device.set_framerate(240), Err(Error::InvalidParameter));
    assert_eq!(device.set_framerate(500), Err(Error::InvalidParameter));
    assert!(script.events().is_empty());
}

#[test]
fn test_every_framerate_checked() {
    for value in 0..=u16::MAX {
        let script = Script::new(vec![]);
        let mut device = script.device();
        let valid = value == 0 || (value < 500 && 500 % value == 0);
        let result = device.set_framerate(value);
        if valid {
            assert_eq!(result, Ok(()));
            assert_eq!(script.events(), vec![write(&[0x26, (value % 256) as u8, (value / 256) as u8])]);
        } else {
            assert_eq!(result, Err(Error::InvalidParameter));
            assert!(script.events().is_empty());
        }
    }
}

#[test]
fn test_invalid_slave_address_blocking() {
    let script = Script::new(vec![]);
    let mut device = script.device();
    assert_eq!(device.set_slave_address(1), Err(Error::InvalidParameter));
    assert_eq!(device.set_slave_address(200), Err(Error::InvalidParameter));
    assert!(script.events().is_empty());
}

#[test]
fn test_every_slave_address_checked() {
    for address in 0..=u8::MAX {
        let script = Script::new(vec![]);
        let mut device = script.device();
        let result = device.set_slave_address(address);
        if (0x08..=0x77).contains(&address) {
            assert_eq!(result, Ok(()));
            assert_eq!(script.events(), vec![write(&[0x22, address])]);
        } else {
            assert_eq!(result, Err(Error::InvalidParameter));
            assert!(script.events().is_empty());
        }
    }
}

#[test]
fn test_get_slave_address_reads_one_byte() {
    let script = Script::new(vec![Reply::Data(vec![0x42])]);
    let mut device = script.device();
    assert_eq!(device.get_slave_address(), Ok(0x42));
    assert_eq!(script.events(), vec![read(0x22, 1)]);
}

#[test]
fn test_write_failure_is_returned() {
    let script = Script::new(vec![Reply::Fail(BusFailure::ArbitrationLoss)]);
    let mut device = script.device();
    assert_eq!(device.enable(), Err(Error::I2c(BusFailure::ArbitrationLoss)));
}

#[test]
fn test_power_mode_values() {
    let script = Script::new(vec![Reply::Data(vec![0]), Reply::Data(vec![1]), Reply::Data(vec![2])]);
    let mut device = script.device();
    assert_eq!(device.get_power_mode(), Ok(PowerMode::Normal));
    assert_eq!(device.get_power_mode(), Ok(PowerMode::PowerSaving));
    assert_eq!(device.get_power_mode(), Err(Error::InvalidData(2)));
    assert_eq!(script.events(), vec![read(0x28, 1), read(0x28, 1), read(0x28, 1)]);
}

#[test]
fn test_power_mode_no_acknowledge_is_ultra_low() {
    let script = Script::new(vec![Reply::Fail(BusFailure::NoAcknowledge), Reply::Fail(BusFailure::ArbitrationLoss)]);
    let mut device = script.device();
    assert_eq!(device.get_power_mode(), Ok(PowerMode::UltraLow));
    assert_eq!(device.get_power_mode(), Err(Error::I2c(BusFailure::ArbitrationLoss)));
}

#[test]
fn test_ranging_mode_values() {
    let script = Script::new(vec![Reply::Data(vec![0]), Reply::Data(vec![1]), Reply::Data(vec![5])]);
    let mut device = script.device();
    assert_eq!(device.get_ranging_mode(), Ok(RangingMode::Continuous));
    assert_eq!(device.get_ranging_mode(), Ok(RangingMode::Trigger));
    assert_eq!(device.get_ranging_mode(), Err(Error::InvalidData(5)));
    assert_eq!(script.events(), vec![read(0x23, 1), read(0x23, 1), read(0x23, 1)]);
}

#[test]
fn test_wake_when_awake() {
    let script = Script::new(vec![Reply::Data(vec![7])]);
    let mut device = script.device();
    assert_eq!(device.wake_from_ultra_low_power(), Ok(()));
    assert_eq!(script.events(), vec![read(0x00, 1)]);
}

#[test]
fn test_wake_when_asleep_waits() {
    let script = Script::new(vec![Reply::Fail(BusFailure::NoAcknowledge)]);
    let mut device = script.device();
    assert_eq!(device.wake_from_ultra_low_power(), Ok(()));
    assert_eq!(script.events(), vec![read(0x00, 1), Event::Delay(12)]);
}

#[test]
fn test_wake_other_error() {
    let script = Script::new(vec![Reply::Fail(BusFailure::ArbitrationLoss)]);
    let mut device = script.device();
    assert_eq!(device.wake_from_ultra_low_power(), Err(Error::I2c(BusFailure::ArbitrationLoss)));
    assert_eq!(script.events(), vec![read(0x00, 1)]);
}

#[test]
fn test_set_normal_power_mode_sequence() {
    let script = Script::new(vec![Reply::Data(vec![0])]);
    let mut device = script.device();
    assert_eq!(device.set_power_mode(PowerMode::Normal), Ok(()));
    assert_eq!(
        script.events(),
        vec![
            read(0x00, 1),
            write(&[0x28, 0]),
            write(&[0x1F, 0, 1, 2]),
            Event::Delay(1000),
            Event::Delay(100),
        ]
    );
}

#[test]
fn test_set_power_saving_mode_from_sleep() {
    let script = Script::new(vec![Reply::Fail(BusFailure::NoAcknowledge)]);
    let mut device = script.device();
    assert_eq!(device.set_power_mode(PowerMode::PowerSaving), Ok(()));
    assert_eq!(
        script.events(),
        vec![
            read(0x00, 1),
            Event::Delay(12),
            write(&[0x28, 1]),
            write(&[0x1F, 0, 1, 2]),
            Event::Delay(1000),
            Event::Delay(100),
        ]
    );
}

#[test]
fn test_set_ultra_low_power_mode_sequence() {
    let script = Script::new(vec![]);
    let mut device = script.device();
    assert_eq!(device.set_power_mode(PowerMode::UltraLow), Ok(()));
    assert_eq!(script.events(), vec![write(&[0x1F, 1, 1, 2]), Event::Delay(1000), Event::Delay(100)]);
}

#[test]
fn test_power_mode_change_stops_at_failure() {
    let script = Script::new(vec![Reply::Data(vec![0]), Reply::Fail(BusFailure::ArbitrationLoss)]);
    let mut device = script.device();
    assert_eq!(device.set_power_mode(PowerMode::Normal), Err(Error::I2c(BusFailure::ArbitrationLoss)));
    assert_eq!(script.events(), vec![read(0x00, 1), write(&[0x28, 0])]);
}

#[test]
fn test_power_mode_change_save_failure() {
    let script = Script::new(vec![Reply::Data(vec![0]), Reply::Done, Reply::Fail(BusFailure::ArbitrationLoss)]);
    let mut device = script.device();
    assert_eq!(device.set_power_mode(PowerMode::PowerSaving), Err(Error::I2c(BusFailure::ArbitrationLoss)));
    assert_eq!(script.events(), vec![read(0x00, 1), write(&[0x28, 1]), write(&[0x1F, 0, 1, 2])]);
}

#[test]
fn test_power_mode_change_wake_failure() {
    let script = Script::new(vec![Reply::Fail(BusFailure::ArbitrationLoss)]);
    let mut device = script.device();
    assert_eq!(device.set_power_mode(PowerMode::PowerSaving), Err(Error::I2c(BusFailure::ArbitrationLoss)));
    assert_eq!(script.events(), vec![read(0x00, 1)]);
}

#[test]
fn test_custom_address_is_used() {
    let script = Script::new(vec![]);
    let mut device =
        TFLuna::new(ScriptBus(script.clone()), Address::from(0x42), ScriptDelay(script.clone())).unwrap();
    device.enable().unwrap();
    assert_eq!(script.events(), vec![Event::Write(0x42, vec![0x25, 1])]);
}

#[test]
fn test_address_conversions() {
    assert_eq!(u8::from(Address::default()), 0x10);
    assert_eq!(u8::from(Address::from(0x33)), 0x33);
    assert_eq!(Register::Signature.offset(), 0x3C);
    assert_eq!(Register::MaximumDistance.offset(), 0x30);
}

#[test]
fn test_word_codec() {
    assert_eq!(combine_buffer_into_word(&[0xB2, 0x0C]), 3250);
    assert_eq!(split_word(9000), [0x28, 0x23]);
    for value in [0u16, 1, 255, 256, 0xABCD, u16::MAX] {
        assert_eq!(combine_buffer_into_word(&split_word(value)), value);
    }
}
