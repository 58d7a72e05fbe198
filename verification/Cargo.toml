[package]
name = "sos21_use_case"
version = "0.1.0"
edition = "2021"
publish = false

[dependencies]
anyhow = "1"
chrono = "0.4"
csv = "1"
uuid = "0.8"
