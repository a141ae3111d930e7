[package]
name = "pd_sink"
version = "0.1.0"
edition = "2021"
publish = false

[dependencies]
heapless = "0.8"
usb-pd = "*"
fusb302b = "*"
embassy-time = "*"
embassy-sync = "*"
