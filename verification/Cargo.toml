[package]
name = "self_balancing_robot2"
version = "0.1.0"
edition = "2021"
publish = false

[dependencies]
tmc2209 = "=0.3.0"
embedded-hal = "=1.0.0"
libm = "=0.2.16"
embedded-io-async = "=0.7.0"
embassy-time = "=0.5.1"
embassy-sync = "=0.8.0"
static_cell = "=2.1.1"
embassy-executor = "*"
defmt = "*"
esp-hal = { version = "*", features = ["esp32", "unstable"] }
esp-println = { version = "*", features = ["esp32"] }
esp-bootloader-esp-idf = { version = "*", features = ["esp32"] }
