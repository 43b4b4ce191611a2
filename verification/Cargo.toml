[package]
name = "doio_keyboard"
version = "0.1.0"
edition = "2021"
publish = false

[dependencies]
heapless = "=0.8.0"
embedded-graphics = "=0.8.2"
embedded-hal-async = "=1.0.0"
embassy-time = "=0.5.1"
embassy-sync = "=0.8.0"
embassy-embedded-hal = "=0.6.0"
embassy-nrf = { version = "=0.11.0", features = ["nrf52840", "time-driver-rtc1", "gpiote"] }
static_cell = "=2.1.1"
defmt = "=1.2.0"
rmk = { version = "=0.9.0", default-features = false, features = ["split", "_ble", "ssd1306"] }
