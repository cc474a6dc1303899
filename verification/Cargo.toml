[package]
name = "staffat-firmware"
version = "0.1.0"
edition = "2021"
publish = false

[dependencies]
embassy-executor = "=0.10.0"
embassy-futures = "=0.1.2"
embassy-net = { version = "=0.9.1", features = ["tcp", "dns", "proto-ipv4", "medium-ethernet"] }
embassy-sync = "=0.8.0"
embassy-time = "=0.5.1"
embedded-hal-bus = "*"
embedded-io-async = "=0.7.0"
embedded-tls = { version = "=0.19.0", default-features = false }
esp-alloc = "*"
esp-backtrace = "*"
esp-hal = "*"
esp-hal-embassy = "*"
esp-hal-mfrc522 = "*"
esp-hal-ota = "*"
esp-hal-wifimanager = "*"
esp-println = "*"
esp-storage = "*"
getrandom = { version = "=0.2.17", features = ["custom"] }
log = "=0.4.34"
rand_core = { version = "=0.6.4", features = ["getrandom"] }
serde_json = { version = "=1.0.154", features = ["preserve_order"] }
ws-framer = "=0.4.0"
