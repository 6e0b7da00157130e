[package]
name = "sshattrick"
version = "0.1.0"
edition = "2021"
publish = false

[dependencies]
anyhow = "1"
async-trait = "0.1"
clap = { version = "4", features = ["derive"] }
crossterm = "0.27"
ed25519-dalek = "2"
env_logger = "0.11"
futures = "0.3"
image = { version = "0.25", default-features = false, features = ["png"] }
log = "0.4"
once_cell = "1"
rand = "0.8"
ratatui = "0.26"
russh = "0.43"
russh-keys = "0.43"
tokio = { version = "1", features = ["full"] }
uuid = { version = "1", features = ["v4"] }
