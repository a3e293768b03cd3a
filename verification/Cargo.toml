[package]
name = "pico_demo_device"
version = "0.1.0"
edition = "2021"
publish = false

[dependencies]
heapless = { version = "=0.7.17", features = ["serde"] }
postcard = { version = "=1.1.3", default-features = false, features = ["heapless"] }
serde = { version = "1", default-features = false, features = ["derive"] }
serde-json-core = "=0.5.1"
embassy-time = { version = "=0.3.2", features = ["tick-hz-1_000_000"] }
embassy-net = { version = "=0.4.0", features = ["tcp", "dhcpv4", "medium-ethernet"] }
embassy-net-driver-channel = "=0.2.0"
embassy-sync = "=0.5.0"
embassy-rp = { version = "=0.1.0", features = ["critical-section-impl", "time-driver"] }
cyw43 = "=0.1.0"
rust-mqtt = { version = "=0.3.1", default-features = false }
static_cell = "=2.1.1"
log = "0.4"
defmt = "0.3"
