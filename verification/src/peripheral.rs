//! The peripheral keyboard half: its split-link status LED.
use vstd::prelude::*;

use crate::blink::{
    advertising_lights_one_tick_in_four, blink_level, blink_next, blink_phase_after, blink_tick,
    led_is_dark_unless_advertising, lit_after, BLINK_PHASES,
};
use crate::status::{BleState, CentralConnectedEvent, Level};

verus! {

/// Drives the split-link status LED of the peripheral half. `P` is the handle of an
/// output pin; the pins are held here for as long as they are to be driven.
///
/// A peripheral has no host connection of its own. The LED shows the split link,
/// put in terms of [`BleState`]: not linked is `Advertising`, so that the LED
/// blinks while it searches, and linked is `Connected`, so that the LED is dark.
#[derive(Debug)]
pub struct PeripheralProcessor<P> {
    /// Split-link status LED.
    pub led4: P,
    /// Low battery LED.
    pub led3: P,
    /// Enable pin of the OLED supply, high when powered.
    pub oled_vcc: P,
    pub ble_state: BleState,
    /// Phase of the blink: lit in phase 0, dark in phases 1 to 3.
    pub ble_blink_phase: u8,
}

/// The split link put in terms of a BLE state.
pub open spec fn link_state(connected: bool) -> BleState {
    if connected {
        BleState::Connected
    } else {
        BleState::Advertising
    }
}

/// The processor of the peripheral half once its pins are set up: nothing known of
/// the link, and the blink at its start.
pub fn peripheral<P>(led4: P, led3: P, oled_vcc: P) -> (processor: PeripheralProcessor<P>)
    ensures
        processor == (PeripheralProcessor {
            led4,
            led3,
            oled_vcc,
            ble_state: BleState::Inactive,
            ble_blink_phase: 0,
        }),
        processor.wf(),
{
    PeripheralProcessor {
        led4,
        led3,
        oled_vcc,
        ble_state: BleState::Inactive,
        ble_blink_phase: 0,
    }
}

impl<P> PeripheralProcessor<P> {
    /// The blink is in one of its phases.
    pub open spec fn wf(&self) -> bool {
        self.ble_blink_phase < BLINK_PHASES
    }

    /// Records that the split link came up or went down.
    pub fn on_central_connected_event(&mut self, event: CentralConnectedEvent)
        ensures
            *final(self) == (PeripheralProcessor {
                ble_state: link_state(event.connected),
                ..*old(self)
            }),
            event.connected ==> final(self).ble_state is Connected,
            !event.connected ==> final(self).ble_state is Advertising,
    {
        if event.connected {
            self.ble_state = BleState::Connected;
        } else {
            self.ble_state = BleState::Advertising;
        }
    }

    /// One tick: returns the level to drive the split-link status LED to.
    pub fn poll(&mut self) -> (level: Level)
        requires
            old(self).wf(),
        ensures
            level == blink_level(old(self).ble_state, old(self).ble_blink_phase as int),
            final(self).ble_blink_phase == blink_next(
                old(self).ble_state,
                old(self).ble_blink_phase as int,
            ),
            *final(self) == (PeripheralProcessor {
                ble_blink_phase: final(self).ble_blink_phase,
                ..*old(self)
            }),
            old(self).ble_state is Advertising ==> {
                &&& level is High <==> old(self).ble_blink_phase == 0
                &&& final(self).ble_blink_phase == (old(self).ble_blink_phase + 1) % 4
            },
            !(old(self).ble_state is Advertising) ==> {
                &&& level is Low
                &&& final(self).ble_blink_phase == old(self).ble_blink_phase
            },
            final(self).wf(),
    {
        let (level, phase) = blink_tick(self.ble_state, self.ble_blink_phase);
        self.ble_blink_phase = phase;
        level
    }
}

/// While the link is down the LED blinks, lit on one tick of any four; while it is up, the
/// LED is dark on every tick.
pub proof fn led_blinks_while_the_link_is_down(phase: int, start: nat)
    requires
        0 <= phase < BLINK_PHASES,
    ensures
        exists|lit: nat|
            start <= lit < start + BLINK_PHASES && blink_level(
                link_state(false),
                #[trigger] blink_phase_after(link_state(false), phase, lit),
            ) is High,
        forall|a: nat, b: nat|
            start <= a < start + BLINK_PHASES && start <= b < start + BLINK_PHASES
                && blink_level(
                link_state(false),
                #[trigger] blink_phase_after(link_state(false), phase, a),
            ) is High && blink_level(
                link_state(false),
                #[trigger] blink_phase_after(link_state(false), phase, b),
            ) is High ==> a == b,
        blink_level(link_state(true), blink_phase_after(link_state(true), phase, start)) is Low,
{
    advertising_lights_one_tick_in_four(phase, start);
    led_is_dark_unless_advertising(link_state(true), phase, start);
    let lit = choose|lit: nat|
        start <= lit < start + BLINK_PHASES && #[trigger] lit_after(phase, lit);
    assert(blink_level(
        link_state(false),
        blink_phase_after(link_state(false), phase, lit),
    ) is High);
    assert forall|a: nat, b: nat|
        start <= a < start + BLINK_PHASES && start <= b < start + BLINK_PHASES && blink_level(
            link_state(false),
            #[trigger] blink_phase_after(link_state(false), phase, a),
        ) is High && blink_level(
            link_state(false),
            #[trigger] blink_phase_after(link_state(false), phase, b),
        ) is High implies a == b by {
        assert(lit_after(phase, a) && lit_after(phase, b));
    }
}

/// The state that stands for the link tells whether it is up, and is never that of an idle
/// half.
pub proof fn link_state_tells_the_link(connected: bool)
    ensures
        link_state(connected) is Connected <==> connected,
        link_state(connected) is Advertising <==> !connected,
{
}

} // verus!
