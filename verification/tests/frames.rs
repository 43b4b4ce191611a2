use doio_keyboard::display::renderer::{ChargingFlag, DOIORenderer, DrawOp, Frame, Icons, Point, Size};
use doio_keyboard::status::{
    BatteryStatus, BatteryStatusEvent, BleState, BleStatus, ChargeState, RenderContext,
};

const PANEL: Size = Size { width: 32, height: 128 };

fn renderer() -> DOIORenderer {
    DOIORenderer::new(Icons {
        layer_0: [10; 44],
        layer_1: [11; 44],
        layer_2: [12; 44],
        layer_3: [13; 44],
        battery_top: [1, 2, 3, 4],
        battery_0: [20, 21, 22, 23, 24, 25, 26, 27],
        battery_1: [30; 8],
        battery_2: [40; 8],
        battery_3: [50; 8],
        battery_4: [60; 8],
        battery_charging: [70, 71, 72, 73, 74, 75, 76, 77],
    })
}

fn flag(charging: bool) -> ChargingFlag {
    ChargingFlag { charging }
}

fn with_battery(battery: BatteryStatus) -> RenderContext {
    RenderContext { battery: BatteryStatusEvent(battery), ..RenderContext::default() }
}

fn at_level(level: u8) -> RenderContext {
    with_battery(BatteryStatus::Available {
        charge_state: ChargeState::Discharging,
        level: Some(level),
    })
}

fn with_ble(state: BleState, profile: u8) -> RenderContext {
    RenderContext { ble_status: BleStatus { profile, state }, ..RenderContext::default() }
}

fn describe(frame: &Frame) -> Vec<String> {
    let mut lines = Vec::new();
    let mut index: usize = 0;
    while let Some(op) = frame.op(index) {
        lines.push(match op {
            DrawOp::Clear => "clear".to_string(),
            DrawOp::Image { data, width, x, y } => {
                format!("image {} {} {} {} {}", data[0], data.len(), width, x, y)
            }
            DrawOp::Text { text, x, y } => format!("text {:?} {} {}", text.as_str(), x, y),
        });
        index += 1;
    }
    lines
}

fn connection(ctx: RenderContext, charging: bool) -> String {
    let frame = renderer().render(&ctx, &flag(charging), PANEL);
    frame.connection.text.as_str().to_string()
}

fn fragment(level: u8) -> u8 {
    let frame = renderer().render(&at_level(level), &flag(false), PANEL);
    frame.battery.unwrap().bitmap[4]
}

fn percent(level: u8) -> String {
    let frame = renderer().render(&at_level(level), &flag(false), PANEL);
    frame.battery.unwrap().level.unwrap().text.as_str().to_string()
}

#[test]
fn full_frame_on_the_panel() {
    let ctx = RenderContext {
        layer: 2,
        ble_status: BleStatus { profile: 2, state: BleState::Connected },
        ..at_level(42)
    };
    let frame = renderer().render(&ctx, &flag(false), PANEL);
    assert_eq!(
        describe(&frame),
        vec![
            "clear",
            "image 12 44 16 8 35",
            "image 1 18 16 8 93",
            "text \"42%\" 16 109",
            "text \"BLE3\" 16 122",
        ]
    );
}

#[test]
fn frame_without_a_battery() {
    let frame = renderer().render(&RenderContext::default(), &flag(false), PANEL);
    assert!(frame.battery.is_none());
    assert_eq!(
        describe(&frame),
        vec!["clear", "image 10 44 16 8 35", "text \"\" 16 122"]
    );
}

#[test]
fn frame_with_an_unknown_level() {
    let ctx = with_battery(BatteryStatus::Available {
        charge_state: ChargeState::Unknown,
        level: None,
    });
    let frame = renderer().render(&ctx, &flag(false), PANEL);
    assert_eq!(frame.op(3).map(|op| matches!(op, DrawOp::Text { .. })), Some(true));
    assert!(frame.op(4).is_none());
    let battery = frame.battery.unwrap();
    assert!(battery.level.is_none());
    assert_eq!(battery.bitmap[4], 60);
}

#[test]
fn every_layer_has_its_icon() {
    for (layer, byte) in [(0u8, 10u8), (1, 11), (2, 12), (3, 13), (4, 10), (255, 10)] {
        let ctx = RenderContext { layer, ..RenderContext::default() };
        let frame = renderer().render(&ctx, &flag(false), PANEL);
        assert_eq!(frame.layer_icon, [byte; 44]);
    }
}

#[test]
fn battery_fragments_by_level() {
    assert_eq!(fragment(0), 20);
    assert_eq!(fragment(10), 20);
    assert_eq!(fragment(11), 30);
    assert_eq!(fragment(25), 30);
    assert_eq!(fragment(26), 40);
    assert_eq!(fragment(50), 40);
    assert_eq!(fragment(51), 50);
    assert_eq!(fragment(75), 50);
    assert_eq!(fragment(76), 60);
    assert_eq!(fragment(255), 60);
}

#[test]
fn battery_icon_is_assembled_symmetrically() {
    let frame = renderer().render(&at_level(5), &flag(false), PANEL);
    let bitmap = frame.battery.unwrap().bitmap;
    assert_eq!(
        bitmap,
        [1, 2, 3, 4, 20, 21, 22, 23, 24, 25, 26, 27, 20, 21, 3, 4, 1, 2]
    );
    for row in 0..3 {
        assert_eq!(bitmap[2 * row..2 * row + 2], bitmap[2 * (8 - row)..2 * (8 - row) + 2]);
    }
}

#[test]
fn charging_shows_the_bolt_in_the_center_rows() {
    for (level, transition) in [(0u8, [20u8, 21u8]), (20, [30, 30]), (30, [40, 40]), (60, [50, 50]), (100, [60, 60])] {
        let frame = renderer().render(&at_level(level), &flag(true), PANEL);
        let bitmap = frame.battery.unwrap().bitmap;
        assert_eq!(bitmap[0..4], [1, 2, 3, 4]);
        assert_eq!(bitmap[4..6], transition);
        assert_eq!(bitmap[6..12], [72, 73, 74, 75, 76, 77]);
        assert_eq!(bitmap[12..14], transition);
        assert_eq!(bitmap[14..18], [3, 4, 1, 2]);
    }
}

#[test]
fn charging_at_an_unknown_level_keeps_the_full_transition_row() {
    let ctx = with_battery(BatteryStatus::Available {
        charge_state: ChargeState::Charging,
        level: None,
    });
    let frame = renderer().render(&ctx, &flag(true), PANEL);
    let bitmap = frame.battery.unwrap().bitmap;
    assert_eq!(bitmap[4..14], [60, 60, 72, 73, 74, 75, 76, 77, 60, 60]);
}

#[test]
fn no_level_text_means_no_bound_on_the_corner() {
    let corner = Point { x: i32::MAX, y: i32::MAX };
    let absent = renderer().draw_battery_status(&RenderContext::default(), &flag(true), corner);
    assert!(absent.is_none());
    let unknown = with_battery(BatteryStatus::Available {
        charge_state: ChargeState::Unknown,
        level: None,
    });
    let drawing = renderer().draw_battery_status(&unknown, &flag(false), corner).unwrap();
    assert_eq!(drawing.at, corner);
    assert!(drawing.level.is_none());
}

#[test]
fn percent_labels() {
    assert_eq!(percent(0), "0%");
    assert_eq!(percent(9), "9%");
    assert_eq!(percent(10), "10%");
    assert_eq!(percent(99), "99%");
    assert_eq!(percent(100), "100%");
    assert_eq!(percent(255), "255%");
}

#[test]
fn connection_line_of_a_linked_peripheral() {
    let ctx = RenderContext { central_connected: true, ..with_ble(BleState::Connected, 0) };
    assert_eq!(connection(ctx, false), "CON");
    assert_eq!(connection(ctx, true), "CON");
}

#[test]
fn connection_line_while_charging() {
    assert_eq!(connection(with_ble(BleState::Connected, 0), true), "USB");
    assert_eq!(connection(with_ble(BleState::Inactive, 0), true), "USB");
}

#[test]
fn connection_line_of_a_ble_profile() {
    assert_eq!(connection(with_ble(BleState::Advertising, 0), false), "BLE1");
    assert_eq!(connection(with_ble(BleState::Connected, 1), false), "BLE2");
    assert_eq!(connection(with_ble(BleState::Connected, 9), false), "BLE10");
    assert_eq!(connection(with_ble(BleState::Connected, 255), false), "BLE256");
}

#[test]
fn connection_line_is_blank_when_idle() {
    assert_eq!(connection(with_ble(BleState::Inactive, 2), false), "");
}

#[test]
fn layout_on_a_small_display() {
    let frame = renderer().render(&at_level(50), &flag(false), Size { width: 9, height: 10 });
    assert_eq!(
        describe(&frame),
        vec![
            "clear",
            "image 10 44 16 -3 -10",
            "image 1 18 16 -3 3",
            "text \"50%\" 5 19",
            "text \"\" 4 4",
        ]
    );
}

#[test]
fn layout_on_the_smallest_display_with_disjoint_bands() {
    let frame = renderer().render(&at_level(50), &flag(false), Size { width: 16, height: 38 });
    assert_eq!(
        describe(&frame),
        vec![
            "clear",
            "image 10 44 16 0 -10",
            "image 1 18 16 0 3",
            "text \"50%\" 8 19",
            "text \"\" 8 32",
        ]
    );
}

#[test]
fn sizes_whose_coordinates_fit() {
    assert!(PANEL.is_drawable());
    assert!(Size { width: 0, height: 0 }.is_drawable());
    assert!(Size { width: u32::MAX, height: u32::MAX }.is_drawable());
    assert!(Size { width: 0x8000_0010, height: 0x8000_0024 }.is_drawable());
    assert!(!Size { width: 0x8000_000F, height: 128 }.is_drawable());
    assert!(!Size { width: 32, height: 0x8000_0023 }.is_drawable());
}

#[test]
fn layout_of_lengths_beyond_the_signed_range() {
    let frame = renderer().render(&at_level(50), &flag(false), Size { width: u32::MAX, height: u32::MAX });
    assert_eq!(frame.layer_at, Point { x: -8, y: -10 });
    assert_eq!(frame.connection.at, Point { x: 0, y: -7 });
}

#[test]
fn battery_drawing_at_a_point() {
    let drawing = renderer()
        .draw_battery_status(&at_level(7), &flag(false), Point { x: -3, y: 40 })
        .unwrap();
    assert_eq!(drawing.at, Point { x: -3, y: 40 });
    let level = drawing.level.unwrap();
    assert_eq!(level.at, Point { x: 5, y: 56 });
    assert_eq!(level.text.as_str(), "7%");
    let none = renderer().draw_battery_status(
        &RenderContext::default(),
        &flag(true),
        Point { x: 0, y: 0 },
    );
    assert!(none.is_none());
}
