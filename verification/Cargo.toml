[package]
name = "blinkstick"
version = "0.1.0"
edition = "2021"
publish = false

[dependencies]
anyhow = "1"
clap = { version = "4", features = ["derive"] }
rand = "0.8"
rusb = "0.9"
thiserror = "1"
