//! The central keyboard half: its BLE status LED and the charging flag.
use vstd::prelude::*;

use crate::blink::{
    advertising_lights_one_tick_in_four, blink_level, blink_next, blink_phase_after, blink_tick,
    lit_after, BLINK_PHASES,
};
use crate::display::renderer::{connection_text, set_charging, ChargingFlag};
use crate::status::{
    BleState, ConnectionStatus, ConnectionStatusChangeEvent, Level, RenderContext, UsbState,
};

verus! {

/// Drives the BLE status LED of the central half. `P` is the handle of an output
/// pin; the pins are held here for as long as they are to be driven.
#[derive(Debug)]
pub struct CentralProcessor<P> {
    /// BLE status LED.
    pub led4: P,
    /// Low battery LED.
    pub led3: P,
    /// Enable pin of the OLED supply, high when powered.
    pub oled_vcc: P,
    pub ble_state: BleState,
    /// Phase of the blink: lit in phase 0, dark in phases 1 to 3.
    pub ble_blink_phase: u8,
}

/// The keyboard is plugged into a host, which also means that it charges.
pub open spec fn usb_connected(usb: UsbState) -> bool {
    usb is Configured || usb is Suspended
}

/// The BLE state to show: none while plugged in.
pub open spec fn shown_ble_state(status: ConnectionStatus) -> BleState {
    if usb_connected(status.usb) {
        BleState::Inactive
    } else {
        status.ble.state
    }
}

/// The processor of the central half once its pins are set up: BLE idle, and the
/// blink at its start.
pub fn central<P>(led4: P, led3: P, oled_vcc: P) -> (processor: CentralProcessor<P>)
    ensures
        processor == (CentralProcessor {
            led4,
            led3,
            oled_vcc,
            ble_state: BleState::Inactive,
            ble_blink_phase: 0,
        }),
        processor.wf(),
{
    CentralProcessor { led4, led3, oled_vcc, ble_state: BleState::Inactive, ble_blink_phase: 0 }
}

impl<P> CentralProcessor<P> {
    /// The blink is in one of its phases.
    pub open spec fn wf(&self) -> bool {
        self.ble_blink_phase < BLINK_PHASES
    }

    /// Records a connection change: the charging flag follows USB, and the LED
    /// follows BLE unless the keyboard is plugged in.
    pub fn on_connection_status_change_event(
        &mut self,
        event: ConnectionStatusChangeEvent,
        flag: &mut ChargingFlag,
    )
        ensures
            final(flag).charging == usb_connected(event.0.usb),
            *final(self) == (CentralProcessor {
                ble_state: shown_ble_state(event.0),
                ..*old(self)
            }),
            event.0.usb is Disabled || event.0.usb is Enabled ==> {
                &&& !final(flag).charging
                &&& final(self).ble_state == event.0.ble.state
            },
            event.0.usb is Configured || event.0.usb is Suspended ==> {
                &&& final(flag).charging
                &&& final(self).ble_state is Inactive
            },
    {
        let connected: bool = matches!(event.0.usb, UsbState::Configured | UsbState::Suspended);
        set_charging(flag, connected);
        if connected {
            self.ble_state = BleState::Inactive;
            return;
        }
        self.ble_state = event.0.ble.state;
    }

    /// One tick: returns the level to drive the BLE status LED to.
    pub fn poll(&mut self) -> (level: Level)
        requires
            old(self).wf(),
        ensures
            level == blink_level(old(self).ble_state, old(self).ble_blink_phase as int),
            final(self).ble_blink_phase == blink_next(
                old(self).ble_state,
                old(self).ble_blink_phase as int,
            ),
            *final(self) == (CentralProcessor {
                ble_blink_phase: final(self).ble_blink_phase,
                ..*old(self)
            }),
            old(self).ble_state is Advertising ==> {
                &&& level is High <==> old(self).ble_blink_phase == 0
                &&& final(self).ble_blink_phase == (old(self).ble_blink_phase + 1) % 4
            },
            !(old(self).ble_state is Advertising) ==> {
                &&& level is Low
                &&& final(self).ble_blink_phase == old(self).ble_blink_phase
            },
            final(self).wf(),
    {
        let (level, phase) = blink_tick(self.ble_state, self.ble_blink_phase);
        self.ble_blink_phase = phase;
        level
    }
}

/// While the keyboard is plugged in, the LED stays dark and the central's status
/// line reads "USB", whatever BLE does.
pub proof fn plugged_in_shows_usb(status: ConnectionStatus, phase: int, ctx: RenderContext)
    requires
        usb_connected(status.usb),
        !ctx.central_connected,
    ensures
        blink_level(shown_ble_state(status), phase) is Low,
        connection_text(ctx, usb_connected(status.usb)) == "USB"@,
{
}

/// While the keyboard is not plugged in, the LED follows BLE, whatever the profile: it is lit
/// on exactly one of any four consecutive ticks if BLE is advertising, and dark otherwise.
pub proof fn unplugged_led_follows_ble(status: ConnectionStatus, phase: int, start: nat)
    requires
        status.usb is Disabled || status.usb is Enabled,
        0 <= phase < 4,
    ensures
        !usb_connected(status.usb),
        shown_ble_state(status) == status.ble.state,
        status.ble.state is Advertising ==> exists|lit: nat|
            start <= lit < start + 4 && blink_level(
                shown_ble_state(status),
                #[trigger] blink_phase_after(shown_ble_state(status), phase, lit),
            ) is High,
        status.ble.state is Advertising ==> forall|a: nat, b: nat|
            start <= a < start + 4 && start <= b < start + 4 && blink_level(
                shown_ble_state(status),
                #[trigger] blink_phase_after(shown_ble_state(status), phase, a),
            ) is High && blink_level(
                shown_ble_state(status),
                #[trigger] blink_phase_after(shown_ble_state(status), phase, b),
            ) is High ==> a == b,
        !(status.ble.state is Advertising) ==> blink_level(
            shown_ble_state(status),
            blink_phase_after(shown_ble_state(status), phase, start),
        ) is Low,
{
    if status.ble.state is Advertising {
        assert(shown_ble_state(status) == BleState::Advertising);
        advertising_lights_one_tick_in_four(phase, start);
        let lit = choose|lit: nat|
            start <= lit < start + 4 && #[trigger] lit_after(phase, lit);
        assert(blink_level(
            shown_ble_state(status),
            blink_phase_after(shown_ble_state(status), phase, lit),
        ) is High);
        assert forall|a: nat, b: nat|
            start <= a < start + 4 && start <= b < start + 4 && blink_level(
                shown_ble_state(status),
                #[trigger] blink_phase_after(shown_ble_state(status), phase, a),
            ) is High && blink_level(
                shown_ble_state(status),
                #[trigger] blink_phase_after(shown_ble_state(status), phase, b),
            ) is High implies a == b by {
            assert(lit_after(phase, a) && lit_after(phase, b));
        }
    }
}

/// While the keyboard is plugged in, suspended or not, it charges, BLE counts as inactive, and
/// the LED is dark on every tick, whatever BLE does.
pub proof fn plugged_in_led_is_dark(status: ConnectionStatus, phase: int, ticks: nat)
    requires
        status.usb is Configured || status.usb is Suspended,
    ensures
        usb_connected(status.usb),
        shown_ble_state(status) is Inactive,
        blink_level(
            shown_ble_state(status),
            blink_phase_after(shown_ble_state(status), phase, ticks),
        ) is Low,
{
}

/// What the LED shows of a connection does not depend on the BLE profile.
pub proof fn led_does_not_depend_on_the_profile(a: ConnectionStatus, b: ConnectionStatus)
    requires
        a.usb == b.usb,
        a.ble.state == b.ble.state,
    ensures
        shown_ble_state(a) == shown_ble_state(b),
{
}

} // verus!
