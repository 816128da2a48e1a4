[package]
name = "ilo_toki"
version = "0.1.0"
edition = "2021"
publish = false

[dependencies]
chrono = "0.4"
crossterm = "0.25"
dirs = "*"
harmony_rust_sdk = "*"
tokio = { version = "1", features = ["full"] }
tui = { version = "*", default-features = false, features = ["crossterm"] }
