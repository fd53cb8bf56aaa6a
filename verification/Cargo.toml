[package]
name = "keymatrix"
version = "0.1.0"
edition = "2021"
publish = false

[dependencies]
heapless = "=0.8.0"
cortex-m = "=0.7.10"
cortex-m-rt = "=0.7.7"
critical-section = "=1.2.0"
embedded-hal = "=1.0.0"
embedded-io = "=0.6.1"
frunk = { version = "=0.5.0", default-features = false }
fugit = "=0.3.9"
panic-halt = "=1.0.0"
rp-pico = "=0.9.0"
static_cell = "=2.1.1"
usb-device = "=0.3.2"
usbd-hid = "=0.10.2"
usbd-human-interface-device = "=0.6.1"
