[package]
name = "igc"
version = "0.1.0"
edition = "2021"
publish = false

[dependencies]
encoding = "=0.2.33"

[dev-dependencies]
regex = "1"
