//! The command sequences the controller runs, and what running one issues on the bus.
use vstd::prelude::*;

use crate::i2c::bus::{BusOp, Fault};
use crate::i2c::codec::{power_mode_of, ranging_mode_of, reading_of, word_bytes};
use crate::i2c::constants::{
    NORMAL_POWER_MODE_COMMAND_VALUE, POWER_MODE_SETTLE_DELAY_MS, POWER_SAVING_POWER_MODE_COMMAND_VALUE,
    REBOOT_COMMAND_VALUE, REBOOT_DELAY_MS, SAVE_COMMAND_VALUE, ULTRA_LOW_POWER_MODE_COMMAND_VALUE,
    WAKE_DELAY_MS,
};
use crate::i2c::types::{Error, Register};
use crate::types::{PowerMode, RangingMode, SensorReading};

verus! {

/// One step of a command sequence.
pub enum Step {
    /// Write these bytes, register offset first, in one transaction.
    Send(Seq<u8>),
    /// Pause for this many milliseconds.
    Pause(u32),
    /// Wake handshake: read one byte of the distance register. On a no-acknowledge the device
    /// was asleep and is now waking: pause for it to settle and go on.
    Wake,
}

/// `done` is what running `plan` against the device at `address` issued, and `r` what the run
/// returned. Steps run in order; a failed transaction ends the run with its error, other than
/// a no-acknowledge during the wake handshake.
pub open spec fn ran<E>(plan: Seq<Step>, address: u8, done: Seq<BusOp<E>>, r: Result<(), Error<E>>) -> bool
    decreases plan.len(),
{
    if plan.len() == 0 {
        done.len() == 0 && r is Ok
    } else if done.len() == 0 {
        false
    } else {
        let rest = plan.drop_first();
        match plan[0] {
            Step::Send(bytes) => match done[0] {
                BusOp::Write { address: a, bytes: b, result } => {
                    &&& a == address
                    &&& b == bytes
                    &&& match result {
                        Ok(_) => ran(rest, address, done.drop_first(), r),
                        Err(f) => done.len() == 1 && r == Err::<(), Error<E>>(Error::I2c(f.error)),
                    }
                },
                _ => false,
            },
            Step::Pause(ms) => {
                &&& done[0] == BusOp::<E>::Delay { ms }
                &&& ran(rest, address, done.drop_first(), r)
            },
            Step::Wake => match done[0] {
                BusOp::WriteRead { address: a, bytes: b, data } => {
                    &&& a == address
                    &&& b == seq![Register::Distance.spec_offset()]
                    &&& match data {
                        Ok(_) => ran(rest, address, done.drop_first(), r),
                        Err(f) => if f.no_acknowledge {
                            &&& done.len() >= 2
                            &&& done[1] == BusOp::<E>::Delay { ms: WAKE_DELAY_MS }
                            &&& ran(rest, address, done.skip(2), r)
                        } else {
                            done.len() == 1 && r == Err::<(), Error<E>>(Error::I2c(f.error))
                        },
                    }
                },
                _ => false,
            },
        }
    }
}

/// `after` is `before` followed by what running `plan` against `address` issued, and `r` is
/// what the run returned.
pub open spec fn issued<E>(
    before: Seq<BusOp<E>>,
    after: Seq<BusOp<E>>,
    plan: Seq<Step>,
    address: u8,
    r: Result<(), Error<E>>,
) -> bool {
    &&& before.len() <= after.len()
    &&& after.subrange(0, before.len() as int) == before
    &&& ran(plan, address, after.subrange(before.len() as int, after.len() as int), r)
}

/// `after` is `before` followed by one write-then-read transaction to `address` that writes
/// the offset of `register` and asks for `len` bytes.
pub open spec fn read_once<E>(
    before: Seq<BusOp<E>>,
    after: Seq<BusOp<E>>,
    address: u8,
    register: Register,
    len: nat,
) -> bool {
    &&& after.len() == before.len() + 1
    &&& after.drop_last() == before
    &&& after.last() matches BusOp::WriteRead { address: a, bytes, data }
    &&& a == address
    &&& bytes == seq![register.spec_offset()]
    &&& (data matches Ok(d) ==> d.len() == len)
}

/// What the last operation of `ops`, a write-then-read, brought back.
pub open spec fn last_data<E>(ops: Seq<BusOp<E>>) -> Result<Seq<u8>, Fault<E>> {
    ops.last()->WriteRead_data
}

/// The result of a read: the decoded bytes, or the bus's error.
pub open spec fn decoded<E, T>(data: Result<Seq<u8>, Fault<E>>, decode: spec_fn(Seq<u8>) -> T) -> Result<T, Error<E>> {
    match data {
        Ok(bytes) => Ok(decode(bytes)),
        Err(f) => Err(Error::I2c(f.error)),
    }
}

/// Write `value` to a one-byte register.
pub open spec fn byte_plan(register: Register, value: u8) -> Seq<Step> {
    seq![Step::Send(seq![register.spec_offset(), value])]
}

/// Write `value`, low byte first, to a register pair.
pub open spec fn word_plan(register: Register, value: u16) -> Seq<Step> {
    seq![Step::Send(seq![register.spec_offset()] + word_bytes(value))]
}

/// Write `ultra_low` to the ultra-low power register, then save the settings and reboot, all in
/// one transaction (the three registers follow each other); then wait for the reboot.
pub open spec fn ultra_low_power_plan(ultra_low: u8) -> Seq<Step> {
    seq![
        Step::Send(seq![Register::UltraLowPowerMode.spec_offset(), ultra_low, SAVE_COMMAND_VALUE, REBOOT_COMMAND_VALUE]),
        Step::Pause(REBOOT_DELAY_MS),
    ]
}

/// The sequence that moves the device into `mode`.
///
/// Normal and power saving: wake the device, write the mode to the power-saving register,
/// then clear ultra-low power, save and reboot, and wait for the reboot. Ultra-low power: set
/// it, save and reboot, and wait. Every change ends with a settle pause.
pub open spec fn power_mode_plan(mode: PowerMode) -> Seq<Step> {
    let settle = seq![Step::Pause(POWER_MODE_SETTLE_DELAY_MS)];
    let leave_ultra_low = ultra_low_power_plan(NORMAL_POWER_MODE_COMMAND_VALUE);
    match mode {
        PowerMode::Normal => seq![Step::Wake] + byte_plan(Register::PowerSavingMode, NORMAL_POWER_MODE_COMMAND_VALUE)
            + leave_ultra_low + settle,
        PowerMode::PowerSaving => seq![Step::Wake] + byte_plan(
            Register::PowerSavingMode,
            POWER_SAVING_POWER_MODE_COMMAND_VALUE,
        ) + leave_ultra_low + settle,
        PowerMode::UltraLow => ultra_low_power_plan(ULTRA_LOW_POWER_MODE_COMMAND_VALUE) + settle,
    }
}

/// `after` is `before` followed by the one read of a measurement, ten bytes from the distance
/// register on, and `r` is what those bytes decode to, or the bus's error.
pub open spec fn measured<E>(
    before: Seq<BusOp<E>>,
    after: Seq<BusOp<E>>,
    address: u8,
    r: Result<SensorReading, Error<E>>,
) -> bool {
    &&& read_once(before, after, address, Register::Distance, 10)
    &&& r == decoded(last_data(after), |b: Seq<u8>| reading_of(b))
}

/// The power mode that the read of the power-saving register tells: the value's mode, or
/// ultra-low power when the device did not acknowledge (it sleeps).
pub open spec fn power_mode_result<E>(data: Result<Seq<u8>, Fault<E>>) -> Result<PowerMode, Error<E>> {
    match data {
        Ok(bytes) => match power_mode_of(bytes[0]) {
            Some(mode) => Ok(mode),
            None => Err(Error::InvalidData(bytes[0])),
        },
        Err(f) => if f.no_acknowledge {
            Ok(PowerMode::UltraLow)
        } else {
            Err(Error::I2c(f.error))
        },
    }
}

/// The ranging mode that the read of the ranging mode register tells.
pub open spec fn ranging_mode_result<E>(data: Result<Seq<u8>, Fault<E>>) -> Result<RangingMode, Error<E>> {
    match data {
        Ok(bytes) => match ranging_mode_of(bytes[0]) {
            Some(mode) => Ok(mode),
            None => Err(Error::InvalidData(bytes[0])),
        },
        Err(f) => Err(Error::I2c(f.error)),
    }
}

/// Running a sequence that succeeded, then another, issues both in turn and returns what the
/// second returned.
pub proof fn lemma_ran_append<E>(
    p1: Seq<Step>,
    p2: Seq<Step>,
    address: u8,
    d1: Seq<BusOp<E>>,
    d2: Seq<BusOp<E>>,
    r1: Result<(), Error<E>>,
    r: Result<(), Error<E>>,
)
    requires
        ran(p1, address, d1, r1),
        r1 is Ok,
        ran(p2, address, d2, r),
    ensures
        ran(p1 + p2, address, d1 + d2, r),
    decreases p1.len(),
{
    if p1.len() == 0 {
        assert(p1 + p2 =~= p2);
        assert(d1 + d2 =~= d2);
    } else {
        assert((p1 + p2).drop_first() =~= p1.drop_first() + p2);
        assert((p1 + p2)[0] == p1[0]);
        assert((d1 + d2)[0] == d1[0]);
        let wake_nack = p1[0] is Wake && d1[0]->WriteRead_data is Err
            && d1[0]->WriteRead_data->Err_0.no_acknowledge;
        if wake_nack {
            lemma_ran_append(p1.drop_first(), p2, address, d1.skip(2), d2, r1, r);
            assert((d1 + d2).skip(2) =~= d1.skip(2) + d2);
            assert((d1 + d2)[1] == d1[1]);
        } else {
            lemma_ran_append(p1.drop_first(), p2, address, d1.drop_first(), d2, r1, r);
            assert((d1 + d2).drop_first() =~= d1.drop_first() + d2);
        }
    }
}

/// A sequence that failed stops where it failed: whatever was to follow it is never issued.
pub proof fn lemma_ran_stops<E>(
    p1: Seq<Step>,
    p2: Seq<Step>,
    address: u8,
    d1: Seq<BusOp<E>>,
    r: Result<(), Error<E>>,
)
    requires
        ran(p1, address, d1, r),
        r is Err,
    ensures
        ran(p1 + p2, address, d1, r),
    decreases p1.len(),
{
    if p1.len() > 0 {
        assert((p1 + p2).drop_first() =~= p1.drop_first() + p2);
        assert((p1 + p2)[0] == p1[0]);
        match p1[0] {
            Step::Send(_) => {
                if d1[0]->Write_result is Ok {
                    lemma_ran_stops(p1.drop_first(), p2, address, d1.drop_first(), r);
                }
            },
            Step::Pause(_) => {
                lemma_ran_stops(p1.drop_first(), p2, address, d1.drop_first(), r);
            },
            Step::Wake => {
                if d1[0]->WriteRead_data is Ok {
                    lemma_ran_stops(p1.drop_first(), p2, address, d1.drop_first(), r);
                } else if d1[0]->WriteRead_data->Err_0.no_acknowledge {
                    lemma_ran_stops(p1.drop_first(), p2, address, d1.skip(2), r);
                }
            },
        }
    }
}

/// Issuing a sequence that succeeded, then another, issues the two joined.
pub proof fn lemma_issued_chain<E>(
    o0: Seq<BusOp<E>>,
    o1: Seq<BusOp<E>>,
    o2: Seq<BusOp<E>>,
    p1: Seq<Step>,
    p2: Seq<Step>,
    address: u8,
    r1: Result<(), Error<E>>,
    r: Result<(), Error<E>>,
)
    requires
        issued(o0, o1, p1, address, r1),
        r1 is Ok,
        issued(o1, o2, p2, address, r),
    ensures
        issued(o0, o2, p1 + p2, address, r),
{
    let d1 = o1.subrange(o0.len() as int, o1.len() as int);
    let d2 = o2.subrange(o1.len() as int, o2.len() as int);
    lemma_ran_append(p1, p2, address, d1, d2, r1, r);
    assert(o2.subrange(0, o0.len() as int) =~= o0);
    assert(o2.subrange(o0.len() as int, o2.len() as int) =~= d1 + d2);
}

/// Issuing a sequence that failed issues, as far as the bus can tell, that sequence followed
/// by anything.
pub proof fn lemma_issued_stops<E>(
    o0: Seq<BusOp<E>>,
    o1: Seq<BusOp<E>>,
    p1: Seq<Step>,
    p2: Seq<Step>,
    address: u8,
    r: Result<(), Error<E>>,
)
    requires
        issued(o0, o1, p1, address, r),
        r is Err,
    ensures
        issued(o0, o1, p1 + p2, address, r),
{
    lemma_ran_stops(p1, p2, address, o1.subrange(o0.len() as int, o1.len() as int), r);
}

} // verus!
