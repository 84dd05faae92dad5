[package]
name = "beagle_config"
version = "0.1.0"
edition = "2021"
publish = false

[dependencies]
ratatui = "0.29"
crossterm = "0.28"
chrono = "0.4"
whoami = "1"
iwdrs = "0.1"
tokio = { version = "1", features = ["full"] }
color-eyre = "0.6"
clap = { version = "4", features = ["derive"] }
async-channel = "2"
futures = "0.3"
anyhow = "1"
serde = { version = "1", features = ["derive"] }
strum = { version = "0.26", features = ["derive"] }
