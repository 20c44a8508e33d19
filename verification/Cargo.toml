[package]
name = "dash_spv_ui"
version = "0.1.0"
edition = "2021"
publish = false

[dependencies]
hex = "0.4.3"
serde = { version = "1.0.229", features = ["derive"] }
toml = "0.9.8"
clap = { version = "4.5.61", features = ["derive"] }
dirs = "6.0.0"
tokio = { version = "1.52.4", features = ["sync", "rt-multi-thread", "macros"] }
tokio-util = "0.7.20"
