[package]
name = "weather_station"
version = "0.1.0"
edition = "2021"
publish = false

[dependencies]
anyhow = "=1.0.104"
as5600 = { version = "=0.8.0", features = ["async"] }
bosch-bme680 = "=1.0.4"
clap = { version = "=4.6.7", features = ["derive"] }
crc32fast = "=1.5.3"
dht-sensor = { version = "=0.3.0", features = ["async"] }
embassy-embedded-hal = "=0.6.0"
embassy-executor = "=0.10.0"
embassy-futures = "=0.1.2"
embassy-net = { version = "=0.9.1", features = ["tcp", "dns", "dhcpv4", "proto-ipv4", "medium-ethernet"] }
embassy-sync = "=0.8.0"
embassy-time = "=0.5.1"
embedded-dht-rs = { version = "=0.5.0", features = ["dht22"] }
embedded-hal-bus = "=0.3.0"
embedded-io-async = "=0.7.0"
env_logger = "=0.11.11"
esp-hal = { version = "=1.1.2", features = ["esp32", "unstable"] }
esp-hal-ota = { version = "=0.6.2", features = ["esp32"] }
esp-radio = "=0.18.0"
esp-rtos = "=0.3.0"
esp-storage = { version = "=0.9.0", features = ["esp32"] }
heapless = "=0.9.3"
ina219 = "=0.2.1"
log = "=0.4.34"
once_cell = "=1.21.4"
reqwless = { version = "=0.14.0", default-features = false }
rust-mqtt = "0.3"
static_cell = "=2.1.1"
tiny_http = "=0.12.0"
toml-cfg = "=0.2.0"
