use doio_keyboard::blink::blink_tick;
use doio_keyboard::central::{central, CentralProcessor};
use doio_keyboard::display::renderer::{is_charging, set_charging, ChargingFlag};
use doio_keyboard::peripheral::{peripheral, PeripheralProcessor};
use doio_keyboard::power::{power_up, OutputPin, PowerUpStep};
use doio_keyboard::status::{
    BleState, BleStatus, CentralConnectedEvent, ConnectionStatus, ConnectionStatusChangeEvent,
    Level, UsbState,
};

fn connection(usb: UsbState, state: BleState) -> ConnectionStatusChangeEvent {
    ConnectionStatusChangeEvent(ConnectionStatus { usb, ble: BleStatus { profile: 1, state } })
}

fn central_half() -> CentralProcessor<u8> {
    central(13, 15, 17)
}

fn peripheral_half() -> PeripheralProcessor<u8> {
    peripheral(29, 31, 22)
}

fn levels_of_central(processor: &mut CentralProcessor<u8>, ticks: usize) -> Vec<Level> {
    let mut levels = Vec::new();
    for _ in 0..ticks {
        levels.push(processor.poll());
    }
    levels
}

#[test]
fn a_new_half_holds_its_pins_and_is_idle() {
    let c = central_half();
    assert_eq!((c.led4, c.led3, c.oled_vcc), (13, 15, 17));
    assert_eq!(c.ble_state, BleState::Inactive);
    assert_eq!(c.ble_blink_phase, 0);
    let p = peripheral_half();
    assert_eq!((p.led4, p.led3, p.oled_vcc), (29, 31, 22));
    assert_eq!(p.ble_state, BleState::Inactive);
    assert_eq!(p.ble_blink_phase, 0);
}

#[test]
fn an_idle_half_keeps_the_led_dark() {
    let mut c = central_half();
    assert_eq!(levels_of_central(&mut c, 5), vec![Level::Low; 5]);
    let mut p = peripheral_half();
    for _ in 0..5 {
        assert_eq!(p.poll(), Level::Low);
    }
}

#[test]
fn advertising_blinks_one_tick_in_four() {
    let mut c = central_half();
    let mut flag = ChargingFlag::new();
    c.on_connection_status_change_event(connection(UsbState::Disabled, BleState::Advertising), &mut flag);
    let expected = vec![
        Level::High, Level::Low, Level::Low, Level::Low,
        Level::High, Level::Low, Level::Low, Level::Low,
        Level::High,
    ];
    assert_eq!(levels_of_central(&mut c, 9), expected);
}

#[test]
fn blinking_resumes_where_it_stopped() {
    let mut c = central_half();
    let mut flag = ChargingFlag::new();
    c.on_connection_status_change_event(connection(UsbState::Disabled, BleState::Advertising), &mut flag);
    assert_eq!(levels_of_central(&mut c, 2), vec![Level::High, Level::Low]);
    c.on_connection_status_change_event(connection(UsbState::Disabled, BleState::Connected), &mut flag);
    assert_eq!(levels_of_central(&mut c, 3), vec![Level::Low; 3]);
    assert_eq!(c.ble_blink_phase, 2);
    c.on_connection_status_change_event(connection(UsbState::Enabled, BleState::Advertising), &mut flag);
    assert_eq!(levels_of_central(&mut c, 3), vec![Level::Low, Level::Low, Level::High]);
}

#[test]
fn plugging_in_charges_and_silences_ble() {
    for usb in [UsbState::Configured, UsbState::Suspended] {
        for state in [BleState::Advertising, BleState::Connected, BleState::Inactive] {
            let mut c = central_half();
            let mut flag = ChargingFlag::new();
            c.on_connection_status_change_event(connection(usb, state), &mut flag);
            assert!(is_charging(&flag));
            assert_eq!(c.ble_state, BleState::Inactive);
            assert_eq!(c.poll(), Level::Low);
        }
    }
}

#[test]
fn unplugged_follows_ble() {
    for usb in [UsbState::Disabled, UsbState::Enabled] {
        for state in [BleState::Advertising, BleState::Connected, BleState::Inactive] {
            let mut c = central_half();
            let mut flag = ChargingFlag { charging: true };
            c.on_connection_status_change_event(connection(usb, state), &mut flag);
            assert!(!is_charging(&flag));
            assert_eq!(c.ble_state, state);
        }
    }
}

#[test]
fn charging_flag_reads_what_was_set() {
    let mut flag = ChargingFlag::new();
    assert!(!is_charging(&flag));
    set_charging(&mut flag, true);
    assert!(is_charging(&flag));
    set_charging(&mut flag, false);
    assert!(!is_charging(&flag));
}

#[test]
fn peripheral_blinks_while_the_link_is_down() {
    let mut p = peripheral_half();
    p.on_central_connected_event(CentralConnectedEvent { connected: false });
    assert_eq!(p.ble_state, BleState::Advertising);
    let mut levels = Vec::new();
    for _ in 0..5 {
        levels.push(p.poll());
    }
    assert_eq!(levels, vec![Level::High, Level::Low, Level::Low, Level::Low, Level::High]);
    p.on_central_connected_event(CentralConnectedEvent { connected: true });
    assert_eq!(p.ble_state, BleState::Connected);
    for _ in 0..4 {
        assert_eq!(p.poll(), Level::Low);
    }
}

#[test]
fn both_halves_blink_alike() {
    let mut c = central_half();
    let mut p = peripheral_half();
    let mut flag = ChargingFlag::new();
    c.on_connection_status_change_event(connection(UsbState::Disabled, BleState::Advertising), &mut flag);
    p.on_central_connected_event(CentralConnectedEvent { connected: false });
    for _ in 0..10 {
        assert_eq!(c.poll(), p.poll());
        assert_eq!(c.ble_blink_phase, p.ble_blink_phase);
    }
}

#[test]
fn blink_tick_wraps_its_phase() {
    assert_eq!(blink_tick(BleState::Advertising, 0), (Level::High, 1));
    assert_eq!(blink_tick(BleState::Advertising, 3), (Level::Low, 0));
    assert_eq!(blink_tick(BleState::Connected, 0), (Level::Low, 0));
    assert_eq!(blink_tick(BleState::Inactive, 2), (Level::Low, 2));
}

#[test]
fn power_up_switches_the_panel_on_last() {
    let configure = |pin| PowerUpStep::Configure { pin, level: Level::Low };
    let mut done: u8 = 0;
    assert_eq!(power_up(&mut done), configure(OutputPin::Led4));
    assert_eq!(power_up(&mut done), configure(OutputPin::Led3));
    assert_eq!(power_up(&mut done), configure(OutputPin::OledVcc));
    assert_eq!(power_up(&mut done), PowerUpStep::WaitMillis { millis: 500 });
    assert_eq!(
        power_up(&mut done),
        PowerUpStep::Drive { pin: OutputPin::OledVcc, level: Level::High }
    );
    assert_eq!(done, 5);
    assert_eq!(power_up(&mut done), PowerUpStep::Ready);
    assert_eq!(done, 5);
    let mut past: u8 = 255;
    assert_eq!(power_up(&mut past), PowerUpStep::Ready);
    assert_eq!(past, 255);
}
