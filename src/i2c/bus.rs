//! The two capabilities the controller is built on, and the record of what it asked of them.
use vstd::prelude::*;

verus! {

/// A transactional I2C bus with 7-bit addresses.
///
/// Each call is one atomic transaction. Nothing is assumed of what the bus returns: the
/// controller records every outcome and its contracts speak of those records.
pub trait I2cBus {
    /// The bus's own error type.
    type Error;

    /// Write `bytes` to the device at `address`, in one transaction.
    fn write(&mut self, address: u8, bytes: &[u8]) -> Result<(), Self::Error>;

    /// Write `bytes` to the device at `address`, then fill `buffer` from it, in one transaction.
    fn write_read(&mut self, address: u8, bytes: &[u8], buffer: &mut [u8]) -> Result<(), Self::Error>;

    /// Whether `error` is a no-acknowledge: the addressed device did not answer.
    fn is_no_acknowledge(error: &Self::Error) -> bool;
}

/// A millisecond sleep.
pub trait Delay {
    /// Pause for at least `ms` milliseconds.
    fn delay_ms(&mut self, ms: u32);
}

/// A failed bus transaction: the bus's error, and whether the bus called it a no-acknowledge.
#[derive(Clone, Copy, Debug, PartialEq, Eq)]
pub struct Fault<E> {
    /// The bus's error.
    pub error: E,
    /// Whether the addressed device did not acknowledge.
    pub no_acknowledge: bool,
}

/// One operation that the controller asked of its bus or its delay, with its outcome.
pub enum BusOp<E> {
    /// A write transaction of `bytes` (register offset first) to the device at `address`.
    Write { address: u8, bytes: Seq<u8>, result: Result<(), Fault<E>> },
    /// A write of `bytes` followed by a read, in one transaction; `data` holds the bytes read.
    WriteRead { address: u8, bytes: Seq<u8>, data: Result<Seq<u8>, Fault<E>> },
    /// A pause of `ms` milliseconds.
    Delay { ms: u32 },
}

} // verus!
