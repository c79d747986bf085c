[package]
name = "bringup_fetch"
version = "0.1.0"
edition = "2021"
publish = false

[dependencies]
cyw43 = "*"
cyw43-pio = "*"
embassy-executor = "*"
embassy-net = "*"
embassy-rp = "*"
embassy-time = "*"
embassy-usb-logger = "*"
log = "*"
panic-halt = "*"
rand = "*"
reqwless = "*"
static_cell = "*"
