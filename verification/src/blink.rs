//! Blinking of the blue status LED, which both keyboard halves share.
//!
//! The LED is updated on every 500 ms tick. While the half is advertising it runs
//! through four phases: lit in phase 0, dark in phases 1 to 3.
use vstd::prelude::*;

use crate::status::{BleState, Level};

verus! {

/// Number of ticks in one blink.
pub const BLINK_PHASES: u8 = 4;

/// Level of the LED on a tick.
pub open spec fn blink_level(state: BleState, phase: int) -> Level {
    if state is Advertising && phase == 0 {
        Level::High
    } else {
        Level::Low
    }
}

/// Phase after a tick.
pub open spec fn blink_next(state: BleState, phase: int) -> int {
    if state is Advertising {
        (phase + 1) % (BLINK_PHASES as int)
    } else {
        phase
    }
}

/// Phase after `ticks` ticks in one state.
pub open spec fn blink_phase_after(state: BleState, phase: int, ticks: nat) -> int
    decreases ticks,
{
    if ticks == 0 {
        phase
    } else {
        blink_next(state, blink_phase_after(state, phase, (ticks - 1) as nat))
    }
}

/// One tick: the level to drive and the next phase.
pub fn blink_tick(state: BleState, phase: u8) -> (r: (Level, u8))
    requires
        phase < BLINK_PHASES,
    ensures
        r.0 == blink_level(state, phase as int),
        r.1 == blink_next(state, phase as int),
        r.1 < BLINK_PHASES,
        r.0 is High <==> state is Advertising && phase == 0,
        state is Advertising ==> r.1 == (phase + 1) % 4,
        !(state is Advertising) ==> r.1 == phase,
{
    match state {
        BleState::Advertising => {
            let level = if phase == 0 {
                Level::High
            } else {
                Level::Low
            };
            (level, (phase + 1) % BLINK_PHASES)
        },
        _ => (Level::Low, phase),
    }
}

/// While advertising, the phase counts the ticks modulo four; otherwise it stands
/// still, so that blinking resumes where it stopped.
pub proof fn blink_phase_counts_ticks(state: BleState, phase: int, ticks: nat)
    requires
        0 <= phase < BLINK_PHASES,
    ensures
        blink_phase_after(state, phase, ticks) == if state is Advertising {
            (phase + ticks) % (BLINK_PHASES as int)
        } else {
            phase
        },
    decreases ticks,
{
    if ticks > 0 {
        blink_phase_counts_ticks(state, phase, (ticks - 1) as nat);
    }
}

/// A half that has been advertising for `ticks` ticks, since the blink was in phase
/// `phase`, lights the LED on the next one.
pub open spec fn lit_after(phase: int, ticks: nat) -> bool {
    blink_level(
        BleState::Advertising,
        blink_phase_after(BleState::Advertising, phase, ticks),
    ) is High
}

/// While advertising, the LED is lit on exactly one of any four consecutive ticks:
/// half a second on, one and a half seconds off.
pub proof fn advertising_lights_one_tick_in_four(phase: int, start: nat)
    requires
        0 <= phase < BLINK_PHASES,
    ensures
        exists|lit: nat|
            start <= lit < start + BLINK_PHASES && #[trigger] lit_after(phase, lit),
        forall|a: nat, b: nat|
            start <= a < start + BLINK_PHASES && start <= b < start + BLINK_PHASES
                && #[trigger] lit_after(phase, a) && #[trigger] lit_after(phase, b) ==> a == b,
{
    let lit = (start + (BLINK_PHASES - (phase + start) % (BLINK_PHASES as int)) % (
    BLINK_PHASES as int)) as nat;
    blink_phase_counts_ticks(BleState::Advertising, phase, lit);
    assert(lit_after(phase, lit));
    assert forall|a: nat, b: nat|
        start <= a < start + BLINK_PHASES && start <= b < start + BLINK_PHASES
            && #[trigger] lit_after(phase, a) && #[trigger] lit_after(phase, b) implies a == b by {
        blink_phase_counts_ticks(BleState::Advertising, phase, a);
        blink_phase_counts_ticks(BleState::Advertising, phase, b);
    }
}

/// A half that is not advertising keeps the LED dark on every tick.
pub proof fn led_is_dark_unless_advertising(state: BleState, phase: int, ticks: nat)
    requires
        !(state is Advertising),
    ensures
        blink_level(state, blink_phase_after(state, phase, ticks)) is Low,
{
}

/// While advertising, the LED is lit on just those ticks on which the phase, counted on from
/// where it was, comes back to zero.
pub proof fn led_is_lit_when_the_phase_returns_to_zero(phase: int, ticks: nat)
    requires
        0 <= phase < 4,
    ensures
        blink_level(
            BleState::Advertising,
            blink_phase_after(BleState::Advertising, phase, ticks),
        ) is High <==> (phase + ticks) % 4 == 0,
{
    blink_phase_counts_ticks(BleState::Advertising, phase, ticks);
}

/// A tick lights the LED only in phase zero of an advertising half, and moves the phase on by
/// one, from three back to zero. In any other state it does neither.
pub proof fn tick_moves_the_blink_on(state: BleState, phase: int)
    requires
        0 <= phase < 4,
    ensures
        blink_level(state, phase) is High <==> state is Advertising && phase == 0,
        state is Advertising && phase < 3 ==> blink_next(state, phase) == phase + 1,
        state is Advertising && phase == 3 ==> blink_next(state, phase) == 0,
        state is Connected || state is Inactive ==> blink_next(state, phase) == phase,
{
}

} // verus!
