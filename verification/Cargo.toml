[package]
name = "driver_cp2130"
version = "0.1.0"
edition = "2021"
publish = false

[dependencies]
byteorder = "1"
embedded-hal = "1.0"
rusb = "0.9"
log = "0.4"
thiserror = "1"
lazy_static = "1"
clap = { version = "4", features = ["derive"] }
simplelog = "*"
hex = "0.4"
rand = "0.8"
