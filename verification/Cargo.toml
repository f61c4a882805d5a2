[package]
name = "passinglink"
version = "0.1.0"
edition = "2021"
publish = false

[dependencies]
ring = "=0.16.20"
log = "=0.4.34"
usb-device = "=0.2.9"
embedded-hal = { version = "=0.2.7", features = ["unproven"] }
cortex-m = "=0.6.7"
heapless = "=0.5.6"
hidapi = "=1.5.0"
