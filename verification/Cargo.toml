[package]
name = "opensnitch_tui"
version = "0.1.0"
edition = "2021"
publish = false

[dependencies]
tokio = { version = "*", features = ["sync", "time", "rt", "rt-multi-thread", "io-util", "io-std"] }
clap = "*"
chrono = "*"
