# doio_keyboard

The decisions of a split keyboard's firmware, verified with Verus: the status LED
of each half, the CW2015 fuel gauge protocol, and what the OLED panel shows.

- `src/status.rs`: transports, battery, and the state that a frame is drawn from
- `src/blink.rs`, `src/central.rs`, `src/peripheral.rs`: the status LEDs
- `src/power.rs`: power-up of a half
- `src/cw2015.rs`: the fuel gauge
- `src/label.rs`: labels in `heapless` strings
- `src/display/renderer.rs`: frames for the OLED
- `src/display/oled.rs`: when panel and gauge are used
- `app/`: pins, timers, bus and framework around the library
- `tests/`: tests of the library

The library performs no I/O. Where an operation needs the bus or a timer, the
library says what to do next and is told the outcome.
