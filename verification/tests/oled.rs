use doio_keyboard::cw2015::{Cw2015, GaugeStep};
use doio_keyboard::display::oled::{
    read_battery, BusOutcome, OledAction, OledBatteryProcessor, OledEvent, BUS_TIMEOUT_MILLIS,
};
use doio_keyboard::display::renderer::{ChargingFlag, Icons, Size};
use doio_keyboard::status::{
    BatteryStatus, BatteryStatusEvent, BleState, BleStatus, CentralConnectedEvent, ChargeState,
    ConnectionStatus, ConnectionStatusChangeEvent, LayerChangeEvent, RenderContext, UsbState,
};

const PANEL: Size = Size { width: 32, height: 128 };
const IDLE: ChargingFlag = ChargingFlag { charging: false };
const CHARGING: ChargingFlag = ChargingFlag { charging: true };

type Processor = OledBatteryProcessor<&'static str, u8>;
type Event = OledEvent<u8>;

fn processor() -> Processor {
    let icons = Icons {
        layer_0: [0; 44],
        layer_1: [1; 44],
        layer_2: [2; 44],
        layer_3: [3; 44],
        battery_top: [0; 4],
        battery_0: [0; 8],
        battery_1: [1; 8],
        battery_2: [2; 8],
        battery_3: [3; 8],
        battery_4: [4; 8],
        battery_charging: [5; 8],
    };
    OledBatteryProcessor::new("panel", Cw2015::new(7), icons)
}

fn ready() -> Processor {
    let mut p = processor();
    p.display_ready = true;
    p.cw_ready = true;
    p
}

fn ok<T>(value: T) -> BusOutcome<T, u8> {
    BusOutcome::Completed { result: Ok(value) }
}

fn failed<T>() -> BusOutcome<T, u8> {
    BusOutcome::Completed { result: Err(1) }
}

fn name(action: &OledAction) -> &'static str {
    match action {
        OledAction::InitGauge => "init gauge",
        OledAction::ReadSoc => "read soc",
        OledAction::InitPanel => "init panel",
        OledAction::Show(_) => "show",
        OledAction::Idle => "idle",
    }
}

fn step(p: &mut Processor, event: Event) -> &'static str {
    name(&p.step(event, &IDLE, PANEL))
}

fn available(charge_state: ChargeState, level: u8) -> BatteryStatusEvent {
    BatteryStatusEvent(BatteryStatus::Available { charge_state, level: Some(level) })
}

#[test]
fn a_new_processor_has_done_nothing() {
    let p = processor();
    assert_eq!(p.display, "panel");
    assert_eq!(p.cw2015.i2c, 7);
    assert!(!p.display_ready);
    assert!(!p.cw_ready);
    assert_eq!(p.ctx, RenderContext::default());
    assert_eq!(p.ctx.layer, 0);
    assert_eq!(p.ctx.battery, BatteryStatusEvent(BatteryStatus::Unavailable));
    assert_eq!(p.ctx.ble_status, BleStatus { profile: 0, state: BleState::Inactive });
    assert!(!p.ctx.central_connected);
    assert_eq!(BUS_TIMEOUT_MILLIS, 250);
}

#[test]
fn first_poll_initialises_both_devices() {
    let mut p = processor();
    assert_eq!(step(&mut p, OledEvent::Poll), "init gauge");
    assert_eq!(step(&mut p, OledEvent::GaugeInit(ok(()))), "read soc");
    assert!(p.cw_ready);
    assert_eq!(step(&mut p, OledEvent::SocRead(ok(80))), "init panel");
    assert_eq!(p.ctx.battery, available(ChargeState::Discharging, 80));
    assert_eq!(step(&mut p, OledEvent::PanelInit { completed: true }), "show");
    assert!(p.display_ready);
    assert_eq!(step(&mut p, OledEvent::Shown { completed: true }), "idle");
}

#[test]
fn later_polls_skip_the_initialisations() {
    let mut p = ready();
    assert_eq!(step(&mut p, OledEvent::Poll), "read soc");
    assert_eq!(step(&mut p, OledEvent::SocRead(ok(80))), "show");
    assert_eq!(step(&mut p, OledEvent::Shown { completed: false }), "idle");
    assert!(p.display_ready && p.cw_ready);
}

#[test]
fn a_gauge_that_fails_to_wake_is_read_and_tried_again() {
    for outcome in [failed(), BusOutcome::TimedOut] {
        let mut p = processor();
        assert_eq!(step(&mut p, OledEvent::Poll), "init gauge");
        assert_eq!(step(&mut p, OledEvent::GaugeInit(outcome)), "read soc");
        assert!(!p.cw_ready);
        assert_eq!(step(&mut p, OledEvent::SocRead(failed())), "init panel");
        assert_eq!(step(&mut p, OledEvent::PanelInit { completed: true }), "show");
        assert_eq!(step(&mut p, OledEvent::Poll), "init gauge");
    }
}

#[test]
fn a_panel_that_times_out_is_tried_again() {
    let mut p = processor();
    assert_eq!(step(&mut p, OledEvent::LayerChange(LayerChangeEvent(1))), "init panel");
    assert_eq!(step(&mut p, OledEvent::PanelInit { completed: false }), "idle");
    assert!(!p.display_ready);
    assert_eq!(step(&mut p, OledEvent::LayerChange(LayerChangeEvent(2))), "init panel");
    assert_eq!(step(&mut p, OledEvent::PanelInit { completed: true }), "show");
    assert_eq!(step(&mut p, OledEvent::LayerChange(LayerChangeEvent(3))), "show");
}

#[test]
fn readiness_is_never_lost() {
    let mut p = ready();
    step(&mut p, OledEvent::PanelInit { completed: false });
    step(&mut p, OledEvent::GaugeInit(failed()));
    step(&mut p, OledEvent::GaugeInit(BusOutcome::TimedOut));
    step(&mut p, OledEvent::SocRead(BusOutcome::TimedOut));
    assert!(p.display_ready);
    assert!(p.cw_ready);
}

#[test]
fn a_failed_read_shows_no_battery() {
    for outcome in [failed(), BusOutcome::TimedOut] {
        let mut p = ready();
        p.ctx.battery = available(ChargeState::Charging, 50);
        match p.step(OledEvent::SocRead(outcome), &CHARGING, PANEL) {
            OledAction::Show(frame) => assert!(frame.battery.is_none()),
            other => panic!("{:?}", other),
        }
        assert_eq!(p.ctx.battery, BatteryStatusEvent(BatteryStatus::Unavailable));
    }
}

#[test]
fn a_reading_shows_level_and_bolt() {
    let mut p = ready();
    match p.step::<u8>(OledEvent::SocRead(ok(100)), &CHARGING, PANEL) {
        OledAction::Show(frame) => {
            let battery = frame.battery.unwrap();
            assert_eq!(battery.bitmap[4..14], [4, 4, 5, 5, 5, 5, 5, 5, 4, 4]);
            assert_eq!(battery.level.unwrap().text.as_str(), "100%");
            assert_eq!(frame.connection.text.as_str(), "USB");
        }
        other => panic!("{:?}", other),
    }
    assert_eq!(p.ctx.battery, available(ChargeState::Charging, 100));
}

#[test]
fn battery_readings() {
    assert_eq!(read_battery(ok(33), &IDLE), available(ChargeState::Discharging, 33));
    assert_eq!(read_battery(ok(33), &CHARGING), available(ChargeState::Charging, 33));
    let unavailable = BatteryStatusEvent(BatteryStatus::Unavailable);
    assert_eq!(read_battery(failed(), &CHARGING), unavailable);
    assert_eq!(read_battery::<u8>(BusOutcome::TimedOut, &IDLE), unavailable);
}

#[test]
fn a_layer_change_redraws() {
    let mut p = ready();
    match p.step::<u8>(OledEvent::LayerChange(LayerChangeEvent(3)), &IDLE, PANEL) {
        OledAction::Show(frame) => assert_eq!(frame.layer_icon, [3; 44]),
        other => panic!("{:?}", other),
    }
    assert_eq!(p.ctx, RenderContext { layer: 3, ..RenderContext::default() });
}

#[test]
fn a_connection_change_redraws() {
    let mut p = ready();
    let ble = BleStatus { profile: 1, state: BleState::Advertising };
    let change = ConnectionStatusChangeEvent(ConnectionStatus { usb: UsbState::Disabled, ble });
    match p.step::<u8>(OledEvent::ConnectionStatusChange(change), &IDLE, PANEL) {
        OledAction::Show(frame) => assert_eq!(frame.connection.text.as_str(), "BLE2"),
        other => panic!("{:?}", other),
    }
    assert_eq!(p.ctx, RenderContext { ble_status: ble, ..RenderContext::default() });
}

#[test]
fn a_split_link_change_redraws() {
    let mut p = ready();
    let up = CentralConnectedEvent { connected: true };
    match p.step::<u8>(OledEvent::CentralConnected(up), &IDLE, PANEL) {
        OledAction::Show(frame) => assert_eq!(frame.connection.text.as_str(), "CON"),
        other => panic!("{:?}", other),
    }
    let down = CentralConnectedEvent { connected: false };
    match p.step::<u8>(OledEvent::CentralConnected(down), &IDLE, PANEL) {
        OledAction::Show(frame) => assert_eq!(frame.connection.text.as_str(), ""),
        other => panic!("{:?}", other),
    }
}

fn uses_of_the_bus(start: Event, success: bool) -> usize {
    let mut p = processor();
    let mut action = p.step(start, &IDLE, PANEL);
    let mut uses = 0;
    loop {
        let event: Event = match action {
            OledAction::InitGauge => OledEvent::GaugeInit(if success { ok(()) } else { failed() }),
            OledAction::ReadSoc => OledEvent::SocRead(if success { ok(5) } else { failed() }),
            OledAction::InitPanel => OledEvent::PanelInit { completed: success },
            OledAction::Show(_) => OledEvent::Shown { completed: success },
            OledAction::Idle => return uses,
        };
        uses += 1;
        action = p.step(event, &IDLE, PANEL);
    }
}

#[test]
fn no_event_takes_more_than_four_uses_of_the_bus() {
    assert_eq!(uses_of_the_bus(OledEvent::Poll, true), 4);
    assert_eq!(uses_of_the_bus(OledEvent::Poll, false), 3);
    assert_eq!(uses_of_the_bus(OledEvent::LayerChange(LayerChangeEvent(1)), true), 2);
    assert_eq!(uses_of_the_bus(OledEvent::LayerChange(LayerChangeEvent(1)), false), 1);
}

#[test]
fn every_reading_of_the_gauge_is_shown_as_a_percentage() {
    let mut p = ready();
    for (high, text) in [(0u8, "0%"), (1, "1%"), (99, "99%"), (100, "100%"), (103, "100%"), (255, "100%")] {
        let result = match p.cw2015.read_soc::<u8>(Some(Ok([high, 9]))) {
            GaugeStep::Finished { result } => result,
            other => panic!("{:?}", other),
        };
        match p.step(OledEvent::SocRead(BusOutcome::Completed { result }), &IDLE, PANEL) {
            OledAction::Show(frame) => {
                assert_eq!(frame.battery.unwrap().level.unwrap().text.as_str(), text)
            }
            other => panic!("{:?}", other),
        }
    }
}
