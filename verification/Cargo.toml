[package]
name = "whisp-rs"
version = "0.1.0"
edition = "2021"
publish = false

[dependencies]
serde = { version = "1", features = ["derive"] }
serde_json = "1"
toml = "0.8"
evdev = "0.13"
ksni = { version = "0.3", features = ["blocking"] }
dialoguer = "0.11"
dirs = "6"
env_logger = "0.11"
log = "0.4"
reqwest = { version = "0.12", default-features = false, features = ["blocking", "rustls-tls"] }
