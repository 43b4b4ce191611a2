//! Protocol of the CW2015 Li-ion fuel gauge (CellWise).
//!
//! The gauge sits on an I2C bus that it shares with the OLED panel. Every
//! operation here is a sequence of [`GaugeStep`]s: the caller performs the step
//! on the bus and hands the outcome back, until a step says that the operation
//! is finished.
//!
//! Register map:
//! - `0x02` VCELL (R): 14-bit cell voltage, 305 uV per count
//! - `0x04` SOC (R): high byte is the whole percentage, low byte its 1/256 part
//! - `0x0A` MODE (R/W): sleep and quick-start control
use vstd::prelude::*;

verus! {

/// 7-bit I2C address of the CW2015.
pub const CW2015_ADDR: u8 = 0x62;

/// Cell voltage register.
pub const REG_VCELL: u8 = 0x02;

/// State-of-charge register.
pub const REG_SOC: u8 = 0x04;

/// Mode register.
pub const REG_MODE: u8 = 0x0A;

/// MODE value that clears the sleep bits and runs the gauge normally. The
/// power-on value is `0xC0`, which is asleep.
pub const MODE_WAKE: u8 = 0x00;

/// MODE value that requests a quick-start, which seeds the state-of-charge
/// estimate anew as a power-up would.
pub const MODE_QUICK_START: u8 = 0x30;

/// The MODE bits that put the gauge to sleep when they are set.
pub const MODE_SLEEP_BITS: u8 = 0xC0;

/// How long the gauge is left in quick-start, in milliseconds.
pub const QUICK_START_MILLIS: u64 = 2;

/// What the caller has to do next for an operation that ends in a `T`, on a bus
/// whose errors are `E`.
#[derive(Debug, PartialEq, Eq)]
pub enum GaugeStep<T, E> {
    /// Write `[register, value]` to the device at `address`.
    Write { address: u8, register: u8, value: u8 },
    /// Write `[register]` to the device at `address`, then read two bytes from it.
    WriteRead { address: u8, register: u8 },
    /// Let this many milliseconds pass.
    WaitMillis { millis: u64 },
    /// The operation is over.
    Finished { result: Result<T, E> },
}

/// CW2015 fuel gauge behind a bus handle of type `I2C`.
#[derive(Debug)]
pub struct Cw2015<I2C> {
    pub i2c: I2C,
}

/// A write of `value` to the gauge's MODE register.
pub open spec fn mode_write<T, E>(value: u8) -> GaugeStep<T, E> {
    GaugeStep::Write { address: CW2015_ADDR, register: REG_MODE, value }
}

/// The steps of a complete initialisation: wake the gauge, request a quick-start,
/// leave it time, and return to normal mode.
pub open spec fn init_script<E>() -> Seq<GaugeStep<(), E>> {
    seq![
        mode_write(MODE_WAKE),
        mode_write(MODE_QUICK_START),
        GaugeStep::WaitMillis { millis: QUICK_START_MILLIS },
        mode_write(MODE_WAKE),
    ]
}

/// The step that follows `done` completed steps of an initialisation, where
/// `reply` is the outcome of the last of them.
pub open spec fn init_step<E>(done: int, reply: Result<(), E>) -> GaugeStep<(), E> {
    match reply {
        Err(e) => GaugeStep::Finished { result: Err(e) },
        Ok(_) => if done < init_script::<E>().len() {
            init_script::<E>()[done]
        } else {
            GaugeStep::Finished { result: Ok(()) }
        },
    }
}

/// Whole percentage that the two bytes of the SOC register report, at most 100.
pub open spec fn soc_percent(bytes: Seq<u8>) -> u8 {
    if bytes[0] <= 100 {
        bytes[0]
    } else {
        100
    }
}

/// The 14-bit count in the two bytes of the VCELL register.
pub open spec fn vcell_count(bytes: Seq<u8>) -> int {
    (bytes[0] % 64) * 256 + bytes[1]
}

/// Cell voltage in whole millivolts: the count times 305 uV, rounded down.
pub open spec fn vcell_millivolts(bytes: Seq<u8>) -> int {
    vcell_count(bytes) * 305 / 1000
}

impl<I2C> Cw2015<I2C> {
    /// Wraps a bus handle. The gauge has to be initialised before it is read.
    pub fn new(i2c: I2C) -> (gauge: Self)
        ensures
            gauge.i2c == i2c,
    {
        Cw2015 { i2c }
    }

    /// Wakes the gauge and issues a quick-start, so that the first reading is an
    /// estimate and not the sleep-mode default.
    ///
    /// `done` counts the steps that have been handed out (0 at the start, and left to this
    /// function from then on), and `reply` is the outcome of the last one (`Ok` at the start
    /// and after a wait). The first error ends the operation with that error.
    pub fn init<E>(&self, done: &mut u8, reply: Result<(), E>) -> (step: GaugeStep<(), E>)
        ensures
            step == init_step(*old(done) as int, reply),
            *final(done) == *old(done) + (if step is Finished {
                0int
            } else {
                1
            }),
    {
        let at: u8 = *done;
        match reply {
            Err(e) => {
                return GaugeStep::Finished { result: Err(e) };
            },
            Ok(_) => {},
        }
        if at >= 4 {
            return GaugeStep::Finished { result: Ok(()) };
        }
        *done = at + 1;
        match at {
            1 => GaugeStep::Write {
                address: CW2015_ADDR,
                register: REG_MODE,
                value: MODE_QUICK_START,
            },
            2 => GaugeStep::WaitMillis { millis: QUICK_START_MILLIS },
            _ => GaugeStep::Write { address: CW2015_ADDR, register: REG_MODE, value: MODE_WAKE },
        }
    }

    /// Reads the state of charge in whole percent, 0 to 100.
    ///
    /// Without a reply, the step is the register read to perform. With its reply,
    /// the operation is over: the high byte is the percentage, held to 100 because
    /// the gauge can briefly report slightly above full, and the low byte, its
    /// 1/256 part, is dropped.
    pub fn read_soc<E>(&self, reply: Option<Result<[u8; 2], E>>) -> (step: GaugeStep<u8, E>)
        ensures
            match reply {
                None => step == (GaugeStep::<u8, E>::WriteRead {
                    address: CW2015_ADDR,
                    register: REG_SOC,
                }),
                Some(Ok(bytes)) => step == (GaugeStep::<u8, E>::Finished {
                    result: Ok(soc_percent(bytes@)),
                }),
                Some(Err(e)) => step == (GaugeStep::<u8, E>::Finished { result: Err(e) }),
            },
    {
        match reply {
            None => GaugeStep::WriteRead { address: CW2015_ADDR, register: REG_SOC },
            Some(Ok(bytes)) => {
                let percent: u8 = if bytes[0] <= 100 {
                    bytes[0]
                } else {
                    100
                };
                GaugeStep::Finished { result: Ok(percent) }
            },
            Some(Err(e)) => GaugeStep::Finished { result: Err(e) },
        }
    }

    /// Reads the cell voltage in millivolts.
    ///
    /// Without a reply, the step is the register read to perform. With its reply,
    /// the operation is over: only the low six bits of the high byte count, and
    /// one count is 305 uV.
    pub fn read_millivolts<E>(&self, reply: Option<Result<[u8; 2], E>>) -> (step: GaugeStep<
        u16,
        E,
    >)
        ensures
            match reply {
                None => step == (GaugeStep::<u16, E>::WriteRead {
                    address: CW2015_ADDR,
                    register: REG_VCELL,
                }),
                Some(Ok(bytes)) => step matches GaugeStep::Finished { result: Ok(millivolts) }
                    && millivolts == vcell_millivolts(bytes@),
                Some(Err(e)) => step == (GaugeStep::<u16, E>::Finished { result: Err(e) }),
            },
    {
        match reply {
            None => GaugeStep::WriteRead { address: CW2015_ADDR, register: REG_VCELL },
            Some(Ok(bytes)) => {
                let high: u8 = bytes[0];
                let low: u8 = bytes[1];
                assert((((high as u32) & 0x3F) << 8) | low as u32 == (high % 64) * 256 + low
                    && (((high as u32) & 0x3F) << 8) | low as u32 <= 16383) by (bit_vector);
                let raw: u32 = (((high as u32) & 0x3F) << 8) | low as u32;
                let millivolts: u32 = raw * 305 / 1000;
                GaugeStep::Finished { result: Ok(millivolts as u16) }
            },
            Some(Err(e)) => GaugeStep::Finished { result: Err(e) },
        }
    }
}

/// The steps that an initialisation takes after `done` of them, when the caller gives
/// these replies in turn. It ends with the first step that is `Finished`.
pub open spec fn init_trace<E>(done: int, replies: Seq<Result<(), E>>) -> Seq<GaugeStep<(), E>>
    decreases replies.len(),
{
    if replies.len() == 0 {
        seq![]
    } else {
        let step = init_step(done, replies[0]);
        if step is Finished {
            seq![step]
        } else {
            seq![step] + init_trace(done + 1, replies.drop_first())
        }
    }
}

proof fn lemma_init_trace_ok<E>(done: int, replies: Seq<Result<(), E>>)
    requires
        0 <= done <= init_script::<E>().len(),
        replies.len() == init_script::<E>().len() - done + 1,
        forall|i: int| 0 <= i < replies.len() ==> (#[trigger] replies[i]) is Ok,
    ensures
        init_trace(done, replies) == init_script::<E>().subrange(
            done,
            init_script::<E>().len() as int,
        ).push(GaugeStep::Finished { result: Ok(()) }),
    decreases replies.len(),
{
    let script = init_script::<E>();
    let end = script.len() as int;
    assert(replies[0] is Ok);
    if done < end {
        lemma_init_trace_ok(done + 1, replies.drop_first());
        assert(seq![script[done]] + script.subrange(done + 1, end) =~= script.subrange(done, end));
    }
    assert(init_trace(done, replies) =~= script.subrange(done, end).push(
        GaugeStep::Finished { result: Ok(()) },
    ));
}

proof fn lemma_init_trace_err<E>(done: int, replies: Seq<Result<(), E>>, failed: int)
    requires
        0 <= done,
        0 <= failed < replies.len(),
        done + failed <= init_script::<E>().len(),
        forall|i: int| 0 <= i < failed ==> (#[trigger] replies[i]) is Ok,
        replies[failed] is Err,
    ensures
        init_trace(done, replies) == init_script::<E>().subrange(done, done + failed).push(
            GaugeStep::Finished { result: replies[failed] },
        ),
    decreases failed,
{
    let script = init_script::<E>();
    if failed > 0 {
        assert(replies[0] is Ok);
        lemma_init_trace_err(done + 1, replies.drop_first(), failed - 1);
        assert(seq![script[done]] + script.subrange(done + 1, done + failed) =~= script.subrange(
            done,
            done + failed,
        ));
    }
    assert(init_trace(done, replies) =~= script.subrange(done, done + failed).push(
        GaugeStep::Finished { result: replies[failed] },
    ));
}

/// Where no step fails, an initialisation performs its whole script, once and in order,
/// and succeeds.
pub proof fn init_without_errors_runs_the_script<E>(replies: Seq<Result<(), E>>)
    requires
        replies.len() == init_script::<E>().len() + 1,
        forall|i: int| 0 <= i < replies.len() ==> (#[trigger] replies[i]) is Ok,
    ensures
        init_trace(0, replies) == init_script::<E>().push(GaugeStep::Finished { result: Ok(()) }),
{
    lemma_init_trace_ok(0, replies);
    assert(init_script::<E>().subrange(0, init_script::<E>().len() as int) =~= init_script::<E>());
}

/// The first step that fails ends an initialisation: nothing more is put on the bus,
/// and the error of that step is the result.
pub proof fn init_stops_at_the_first_error<E>(replies: Seq<Result<(), E>>, failed: int)
    requires
        0 <= failed < replies.len(),
        failed <= init_script::<E>().len(),
        forall|i: int| 0 <= i < failed ==> (#[trigger] replies[i]) is Ok,
        replies[failed] is Err,
    ensures
        init_trace(0, replies) == init_script::<E>().take(failed).push(
            GaugeStep::Finished { result: replies[failed] },
        ),
{
    lemma_init_trace_err(0, replies, failed);
    assert(init_script::<E>().subrange(0, failed) =~= init_script::<E>().take(failed));
}

/// The MODE register of a gauge that held `mode`, after `steps`.
pub open spec fn mode_after<E>(mode: u8, steps: Seq<GaugeStep<(), E>>) -> u8
    decreases steps.len(),
{
    if steps.len() == 0 {
        mode
    } else {
        match steps.last() {
            GaugeStep::Write { address, register, value } if address == CW2015_ADDR && register
                == REG_MODE => value,
            _ => mode_after(mode, steps.drop_last()),
        }
    }
}

/// Whatever mode the gauge was in, it is awake from the first step of an initialisation
/// on, it is in quick-start while the caller waits, and it ends in normal mode.
pub proof fn init_leaves_the_gauge_awake<E>(mode: u8, done: int)
    requires
        1 <= done <= init_script::<E>().len(),
    ensures
        mode_after(mode, init_script::<E>().take(done)) & MODE_SLEEP_BITS == 0,
        init_script::<E>()[2] == (GaugeStep::<(), E>::WaitMillis { millis: QUICK_START_MILLIS }),
        mode_after(mode, init_script::<E>().take(2)) == MODE_QUICK_START,
        mode_after(mode, init_script::<E>().take(3)) == MODE_QUICK_START,
        mode_after(mode, init_script::<E>()) == MODE_WAKE,
{
    reveal_with_fuel(mode_after, 2);
    let script = init_script::<E>();
    assert(0x00u8 & 0xC0u8 == 0) by (bit_vector);
    assert(0x30u8 & 0xC0u8 == 0) by (bit_vector);
    assert(script.take(1).last() == script[0]);
    assert(script.take(2).last() == script[1]);
    assert(script.take(3).last() == script[2]);
    assert(script.take(3).drop_last() =~= script.take(2));
    assert(script.take(4) =~= script);
    assert(script.last() == script[3]);
}

/// A state of charge is a whole percentage from 0 to 100. It is the high byte, except
/// where that is above 100; the low byte does not matter, and a higher register never
/// gives a lower percentage.
pub proof fn soc_is_a_whole_percentage(bytes: Seq<u8>, higher: Seq<u8>)
    requires
        bytes.len() == 2,
        higher.len() == 2,
        bytes[0] <= higher[0],
    ensures
        soc_percent(bytes) <= 100,
        bytes[0] <= 100 ==> soc_percent(bytes) == bytes[0],
        bytes[0] > 100 ==> soc_percent(bytes) == 100,
        soc_percent(bytes) <= soc_percent(higher),
        bytes[0] == higher[0] ==> soc_percent(bytes) == soc_percent(higher),
{
}

/// A voltage is the count times 305 uV, to the millivolt below. The two top bits do not
/// matter, a higher count never gives a lower voltage, and the highest is 4996 mV.
pub proof fn millivolts_follow_the_count(bytes: Seq<u8>, higher: Seq<u8>)
    requires
        bytes.len() == 2,
        higher.len() == 2,
        vcell_count(bytes) <= vcell_count(higher),
    ensures
        vcell_millivolts(bytes) * 1000 <= vcell_count(bytes) * 305 < (vcell_millivolts(bytes) + 1)
            * 1000,
        vcell_millivolts(bytes) <= vcell_millivolts(higher),
        0 <= vcell_millivolts(bytes) <= 4996,
        bytes[0] % 64 == higher[0] % 64 && bytes[1] == higher[1] ==> vcell_millivolts(bytes)
            == vcell_millivolts(higher),
{
}

/// With every reply that is not an error, the steps are, in turn: write 0x00 to MODE, write
/// 0x30 to MODE, wait two milliseconds, write 0x00 to MODE, and the successful end. An error
/// is the end at once, whatever had been done.
pub proof fn init_takes_four_steps<E>(done: int, reply: Result<(), E>)
    requires
        0 <= done,
    ensures
        reply matches Err(e) ==> init_step(done, reply) == (GaugeStep::<(), E>::Finished {
            result: Err(e),
        }),
        reply is Ok && (done == 0 || done == 3) ==> init_step(done, reply) == (GaugeStep::<
            (),
            E,
        >::Write { address: 0x62, register: 0x0A, value: 0x00 }),
        reply is Ok && done == 1 ==> init_step(done, reply) == (GaugeStep::<(), E>::Write {
            address: 0x62,
            register: 0x0A,
            value: 0x30,
        }),
        reply is Ok && done == 2 ==> init_step(done, reply) == (GaugeStep::<(), E>::WaitMillis {
            millis: 2,
        }),
        reply is Ok && done >= 4 ==> (init_step(done, reply) matches GaugeStep::Finished { result }
            && result is Ok),
        init_script::<E>().len() == 4,
{
}

/// The voltage is that of the count made of the low six bits of the high byte and the whole
/// low byte, at 305 uV per count, to the millivolt below.
pub proof fn millivolts_come_from_fourteen_bits(bytes: Seq<u8>)
    requires
        bytes.len() == 2,
    ensures
        0 <= ((bytes[0] % 64) * 256 + bytes[1]) * 305 - vcell_millivolts(bytes) * 1000 < 1000,
        vcell_count(bytes) == (bytes[0] % 64) * 256 + bytes[1],
{
}

} // verus!
