[package]
name = "mixed_radix_clock"
version = "0.1.0"
edition = "2021"
publish = false

[dependencies]
radix_fmt = "1"
num = "0.4"
chrono = "0.4"
clap = { version = "3", features = ["derive"] }
