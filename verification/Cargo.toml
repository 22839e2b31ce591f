[package]
name = "smartcalc_tui"
version = "0.1.0"
edition = "2021"
publish = false

[dependencies]
smartcalc = "*"
colored = "*"
crossterm = "*"
crossbeam-channel = "*"
parking_lot = "*"
chrono = "*"
chrono-tz = "*"
localzone = "*"
num-format = { version = "*", features = ["with-system-locale"] }
