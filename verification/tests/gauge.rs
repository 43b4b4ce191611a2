use doio_keyboard::cw2015::{
    Cw2015, GaugeStep, CW2015_ADDR, MODE_QUICK_START, MODE_SLEEP_BITS, MODE_WAKE, REG_MODE, REG_SOC,
    REG_VCELL,
};
use doio_keyboard::display::oled::OLED_ADDRESS;

fn gauge() -> Cw2015<&'static str> {
    Cw2015::new("bus")
}

fn mode_write(value: u8) -> GaugeStep<(), u8> {
    GaugeStep::Write { address: 0x62, register: 0x0A, value }
}

fn soc(bytes: [u8; 2]) -> GaugeStep<u8, u8> {
    gauge().read_soc(Some(Ok(bytes)))
}

fn millivolts(bytes: [u8; 2]) -> GaugeStep<u16, u8> {
    gauge().read_millivolts(Some(Ok(bytes)))
}

#[test]
fn new_keeps_the_bus_handle() {
    assert_eq!(gauge().i2c, "bus");
}

#[test]
fn address_gives_the_datasheet_commands() {
    assert_eq!(CW2015_ADDR << 1, 0xC4);
    assert_eq!(CW2015_ADDR << 1 | 1, 0xC5);
    assert_ne!(CW2015_ADDR, OLED_ADDRESS);
    assert_eq!(OLED_ADDRESS, 0x3C);
}

#[test]
fn register_map() {
    assert_eq!(REG_VCELL, 0x02);
    assert_eq!(REG_SOC, 0x04);
    assert_eq!(REG_MODE, 0x0A);
    assert_eq!(MODE_WAKE & MODE_SLEEP_BITS, 0);
    assert_eq!(MODE_QUICK_START & MODE_SLEEP_BITS, 0);
    assert_eq!(MODE_QUICK_START, 0x30);
}

#[test]
fn init_runs_the_whole_script() {
    let g = gauge();
    let mut done: u8 = 0;
    assert_eq!(g.init(&mut done, Ok(())), mode_write(0x00));
    assert_eq!(g.init(&mut done, Ok(())), mode_write(0x30));
    assert_eq!(g.init(&mut done, Ok(())), GaugeStep::<(), u8>::WaitMillis { millis: 2 });
    assert_eq!(g.init(&mut done, Ok(())), mode_write(0x00));
    assert_eq!(done, 4);
    assert_eq!(g.init(&mut done, Ok(())), GaugeStep::<(), u8>::Finished { result: Ok(()) });
    assert_eq!(done, 4);
}

#[test]
fn init_stops_at_the_first_error() {
    let g = gauge();
    for handed_out in [1u8, 2, 4] {
        let mut done = handed_out;
        assert_eq!(g.init(&mut done, Err(7u8)), GaugeStep::Finished { result: Err(7u8) });
        assert_eq!(done, handed_out);
    }
}

#[test]
fn init_leaves_the_gauge_in_normal_mode() {
    let g = gauge();
    let mut mode: u8 = 0xC0;
    let mut seen: Vec<u8> = Vec::new();
    let mut done: u8 = 0;
    loop {
        match g.init::<u8>(&mut done, Ok(())) {
            GaugeStep::Write { value, .. } => {
                mode = value;
                seen.push(value);
            }
            GaugeStep::Finished { result } => {
                assert_eq!(result, Ok(()));
                break;
            }
            GaugeStep::WaitMillis { .. } => assert_eq!(mode, MODE_QUICK_START),
            GaugeStep::WriteRead { .. } => panic!("no read in an initialisation"),
        }
        assert_eq!(mode & 0xC0, 0);
    }
    assert_eq!(mode, 0x00);
    assert_eq!(seen, vec![0x00, 0x30, 0x00]);
}

#[test]
fn soc_asks_for_its_register() {
    assert_eq!(
        gauge().read_soc::<u8>(None),
        GaugeStep::WriteRead { address: 0x62, register: 0x04 }
    );
}

#[test]
fn soc_is_the_high_byte() {
    assert_eq!(soc([0, 0]), GaugeStep::Finished { result: Ok(0) });
    assert_eq!(soc([57, 255]), GaugeStep::Finished { result: Ok(57) });
    assert_eq!(soc([57, 0]), GaugeStep::Finished { result: Ok(57) });
    assert_eq!(soc([99, 128]), GaugeStep::Finished { result: Ok(99) });
}

#[test]
fn soc_is_held_to_full() {
    assert_eq!(soc([100, 0]), GaugeStep::Finished { result: Ok(100) });
    assert_eq!(soc([101, 3]), GaugeStep::Finished { result: Ok(100) });
    assert_eq!(soc([255, 255]), GaugeStep::Finished { result: Ok(100) });
}

#[test]
fn soc_passes_the_bus_error_on() {
    assert_eq!(
        gauge().read_soc(Some(Err(3u8))),
        GaugeStep::Finished { result: Err(3u8) }
    );
}

#[test]
fn millivolts_ask_for_their_register() {
    assert_eq!(
        gauge().read_millivolts::<u8>(None),
        GaugeStep::WriteRead { address: 0x62, register: 0x02 }
    );
}

#[test]
fn millivolts_of_known_counts() {
    assert_eq!(millivolts([0, 0]), GaugeStep::Finished { result: Ok(0) });
    // 3 counts are 0.915 mV, 4 counts are 1.22 mV.
    assert_eq!(millivolts([0, 3]), GaugeStep::Finished { result: Ok(0) });
    assert_eq!(millivolts([0, 4]), GaugeStep::Finished { result: Ok(1) });
    // 0x3000 = 12288 counts.
    assert_eq!(millivolts([0x30, 0x00]), GaugeStep::Finished { result: Ok(3747) });
    assert_eq!(millivolts([0x3F, 0xFF]), GaugeStep::Finished { result: Ok(4996) });
}

#[test]
fn millivolts_ignore_the_two_top_bits() {
    assert_eq!(millivolts([0xF0, 0x12]), millivolts([0x30, 0x12]));
    assert_eq!(millivolts([0x40, 0x00]), GaugeStep::Finished { result: Ok(0) });
}

#[test]
fn millivolts_pass_the_bus_error_on() {
    assert_eq!(
        gauge().read_millivolts(Some(Err(9u8))),
        GaugeStep::Finished { result: Err(9u8) }
    );
}
