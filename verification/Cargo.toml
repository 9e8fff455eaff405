[package]
name = "rp_hal_async"
version = "0.1.0"
edition = "2021"
publish = false

[dependencies]
cortex-m = "0.7"
critical-section = "1"
defmt = "0.3"
embassy-sync = "0.6"
embassy-time-driver = "0.1"
embedded-hal = "1"
embedded-hal-async = "1"
fugit = "0.3"
portable-atomic = "1"
rp235x-hal = "*"
