//! What holds across calls of the controller, stated over the contracts of its methods.
use vstd::prelude::*;

use crate::i2c::bus::{BusOp, Fault};
use crate::i2c::codec::{is_valid_framerate, lemma_word_round_trip, word_of};
use crate::i2c::constants::ENABLE_COMMAND_VALUE;
use crate::i2c::protocol::{byte_plan, decoded, issued, last_data, measured, ran, read_once, word_plan};
use crate::i2c::types::{Error, Register};
use crate::types::SensorReading;

verus! {

/// A valid framerate written with `set_framerate` is read back by `get_framerate`.
///
/// `o0` to `o1` is what `set_framerate(f)` issued (its contract for a valid `f`), and `o1` to
/// `o2` what `get_framerate` issued and returned. When the write went through and the device
/// hands back the bytes that the write put after the register offset, the read returns `f`.
pub proof fn framerate_round_trip<E>(
    o0: Seq<BusOp<E>>,
    o1: Seq<BusOp<E>>,
    o2: Seq<BusOp<E>>,
    address: u8,
    f: u16,
    set_result: Result<(), Error<E>>,
    get_result: Result<u16, Error<E>>,
)
    requires
        is_valid_framerate(f),
        issued(o0, o1, word_plan(Register::Framerate, f), address, set_result),
        set_result is Ok,
        read_once(o1, o2, address, Register::Framerate, 2),
        get_result == decoded(last_data(o2), |b: Seq<u8>| word_of(b[0], b[1])),
        last_data(o2) == Ok::<Seq<u8>, Fault<E>>(o1.last()->Write_bytes.drop_first()),
    ensures
        get_result == Ok::<u16, Error<E>>(f),
{
    reveal_with_fuel(ran, 2);
    let done = o1.subrange(o0.len() as int, o1.len() as int);
    assert(done.len() == 1);
    assert(o1.last() == done[0]);
    lemma_word_round_trip(f);
}

/// Enabling twice in a row issues two identical transactions: each writes 1 to the enable
/// register, to the same device, and each call fails only if its own write failed on the bus.
pub proof fn enable_twice<E>(
    o0: Seq<BusOp<E>>,
    o1: Seq<BusOp<E>>,
    o2: Seq<BusOp<E>>,
    address: u8,
    r1: Result<(), Error<E>>,
    r2: Result<(), Error<E>>,
)
    requires
        issued(o0, o1, byte_plan(Register::Enable, ENABLE_COMMAND_VALUE), address, r1),
        issued(o1, o2, byte_plan(Register::Enable, ENABLE_COMMAND_VALUE), address, r2),
    ensures
        o2.len() == o0.len() + 2,
        o2.subrange(0, o0.len() as int) == o0,
        o2[o0.len() as int] matches BusOp::Write { address: a, bytes, result } && a == address
            && bytes == seq![0x25u8, 1u8] && (r1 is Ok <==> result is Ok),
        o2[o0.len() as int + 1] matches BusOp::Write { address: a, bytes, result } && a == address
            && bytes == seq![0x25u8, 1u8] && (r2 is Ok <==> result is Ok),
{
    reveal_with_fuel(ran, 2);
    let d1 = o1.subrange(o0.len() as int, o1.len() as int);
    let d2 = o2.subrange(o1.len() as int, o2.len() as int);
    assert(d1.len() == 1);
    assert(d2.len() == 1);
    assert(o2.subrange(0, o0.len() as int) =~= o0);
    assert(o2[o0.len() as int] == o1[o0.len() as int]);
    assert(o1[o0.len() as int] == d1[0]);
    assert(o2[o0.len() as int + 1] == d2[0]);
}

/// Two measurements with nothing in between issue two reads and no write, so nothing
/// triggers the device between them; when it hands back the same bytes (or the same failure)
/// both times, the two results are equal.
pub proof fn measurements_without_trigger<E>(
    o0: Seq<BusOp<E>>,
    o1: Seq<BusOp<E>>,
    o2: Seq<BusOp<E>>,
    address: u8,
    r1: Result<SensorReading, Error<E>>,
    r2: Result<SensorReading, Error<E>>,
)
    requires
        measured(o0, o1, address, r1),
        measured(o1, o2, address, r2),
    ensures
        o2.len() == o0.len() + 2,
        o2.subrange(0, o0.len() as int) == o0,
        o2[o0.len() as int] is WriteRead,
        o2[o0.len() as int + 1] is WriteRead,
        last_data(o1) == last_data(o2) ==> r1 == r2,
{
    assert(o2.subrange(0, o0.len() as int) =~= o0);
    assert(o2[o0.len() as int] == o1[o0.len() as int]);
}

} // verus!
