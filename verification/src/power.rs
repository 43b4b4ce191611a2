//! Power-up of a keyboard half: its two LEDs and the supply of its OLED panel.
use vstd::prelude::*;

use crate::status::Level;

verus! {

/// How long the OLED supply is left off before it is switched on, in milliseconds,
/// so that the rail settles.
pub const RAIL_SETTLE_MILLIS: u64 = 500;

/// An output pin of a keyboard half.
#[derive(Clone, Copy, Debug, PartialEq, Eq, Structural)]
pub enum OutputPin {
    /// Blue status LED, lit when high.
    Led4,
    /// Red low battery LED, lit when high.
    Led3,
    /// Enable pin of the OLED supply, high when powered.
    OledVcc,
}

/// What to do next while a half powers up.
#[derive(Clone, Copy, Debug, PartialEq, Eq, Structural)]
pub enum PowerUpStep {
    /// Make the pin an output at this level.
    Configure { pin: OutputPin, level: Level },
    /// Let this many milliseconds pass.
    WaitMillis { millis: u64 },
    /// Drive the pin, which is an output by now, to this level.
    Drive { pin: OutputPin, level: Level },
    /// The half is powered up.
    Ready,
}

/// The steps of a power-up: everything off, wait for the rail, panel on.
pub open spec fn power_up_script() -> Seq<PowerUpStep> {
    seq![
        PowerUpStep::Configure { pin: OutputPin::Led4, level: Level::Low },
        PowerUpStep::Configure { pin: OutputPin::Led3, level: Level::Low },
        PowerUpStep::Configure { pin: OutputPin::OledVcc, level: Level::Low },
        PowerUpStep::WaitMillis { millis: RAIL_SETTLE_MILLIS },
        PowerUpStep::Drive { pin: OutputPin::OledVcc, level: Level::High },
    ]
}

/// The next step of a power-up. `done` counts the steps that have been handed out: 0 at the
/// start, and left to this function from then on.
pub fn power_up(done: &mut u8) -> (step: PowerUpStep)
    ensures
        step == (if *old(done) < power_up_script().len() {
            power_up_script()[*old(done) as int]
        } else {
            PowerUpStep::Ready
        }),
        step is Ready <==> *old(done) >= 5,
        *final(done) == *old(done) + (if step is Ready {
            0int
        } else {
            1
        }),
{
    let at: u8 = *done;
    if at >= 5 {
        return PowerUpStep::Ready;
    }
    *done = at + 1;
    match at {
        0 => PowerUpStep::Configure { pin: OutputPin::Led4, level: Level::Low },
        1 => PowerUpStep::Configure { pin: OutputPin::Led3, level: Level::Low },
        2 => PowerUpStep::Configure { pin: OutputPin::OledVcc, level: Level::Low },
        3 => PowerUpStep::WaitMillis { millis: RAIL_SETTLE_MILLIS },
        _ => PowerUpStep::Drive { pin: OutputPin::OledVcc, level: Level::High },
    }
}

/// Level of a pin after the first `done` steps, `None` before it is an output.
pub open spec fn pin_level_after(pin: OutputPin, done: nat) -> Option<Level>
    decreases done,
{
    if done == 0 {
        None
    } else {
        let before = pin_level_after(pin, (done - 1) as nat);
        match power_up_script()[done - 1] {
            PowerUpStep::Configure { pin: p, level } if p == pin => Some(level),
            PowerUpStep::Drive { pin: p, level } if p == pin && before is Some => Some(level),
            _ => before,
        }
    }
}

/// The OLED supply is off for the whole wait and on once the half is powered up, and
/// neither LED is lit at any time.
pub proof fn power_up_switches_panel_on_last(done: nat)
    requires
        done <= power_up_script().len(),
    ensures
        pin_level_after(OutputPin::OledVcc, done) == (if done < 3 {
            None
        } else if done < 5 {
            Some(Level::Low)
        } else {
            Some(Level::High)
        }),
        power_up_script()[3] == (PowerUpStep::WaitMillis { millis: RAIL_SETTLE_MILLIS }),
        pin_level_after(OutputPin::Led4, done) != Some(Level::High),
        pin_level_after(OutputPin::Led3, done) != Some(Level::High),
        done == power_up_script().len() ==> pin_level_after(OutputPin::Led4, done) == Some(
            Level::Low,
        ) && pin_level_after(OutputPin::Led3, done) == Some(Level::Low),
{
    reveal_with_fuel(pin_level_after, 6);
}

/// A power-up has five steps: each of the three pins becomes an output, at low level; half a
/// second passes; and the OLED supply is driven high.
pub proof fn power_up_takes_five_steps(step: PowerUpStep, at: int)
    requires
        0 <= at < power_up_script().len(),
        step == power_up_script()[at],
    ensures
        power_up_script().len() == 5,
        step is WaitMillis <==> at == 3,
        step matches PowerUpStep::WaitMillis { millis } ==> millis == 500,
        step matches PowerUpStep::Configure { level, .. } ==> level is Low,
        step matches PowerUpStep::Configure { pin, .. } ==> {
            &&& pin is Led4 <==> at == 0
            &&& pin is Led3 <==> at == 1
            &&& pin is OledVcc <==> at == 2
        },
        step matches PowerUpStep::Drive { pin, level } ==> at == 4 && pin is OledVcc && level is High,
        !(step is Ready),
{
}

} // verus!
