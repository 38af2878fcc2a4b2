[package]
name = "lightsnip"
version = "0.1.0"
edition = "2021"
publish = false

[dependencies]
chrono = { version = "0.4", default-features = false, features = ["clock", "std"] }
open = "5"
parking_lot = "0.12"
rdev = "0.5"
sysinfo = { version = "0.30", default-features = false }
