[package]
name = "raftor"
version = "0.1.0"
edition = "2021"
publish = false

[dependencies]
postcard = { version = "=1.1.3", features = ["alloc"] }
serde = { version = "=1.0.229", features = ["derive"] }
serde_json = "=1.0.154"
heapless = "=0.8.0"
ratatui = "=0.29.0"
crossterm = "=0.28.1"
color-eyre = "=0.6.5"
embassy-time = "=0.5.1"
embassy-sync = "=0.8.0"
embassy-futures = "=0.1.2"
embassy-executor = "*"
embassy-net = { version = "*", features = ["udp", "dhcpv4", "proto-ipv4", "medium-ethernet"] }
static_cell = "=2.1.1"
log = "=0.4.35"
esp-hal = "*"
esp-radio = "*"
esp-rtos = "*"
esp-println = "*"
esp-alloc = "*"
esp-backtrace = "*"
esp-bootloader-esp-idf = "*"
