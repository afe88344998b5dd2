[package]
name = "edsm_api"
version = "0.1.0"
edition = "2021"
publish = false

[dependencies]
chrono = "0.4"
edsm-dumps-model = "*"
log = "0.4"
serde = { version = "1", features = ["derive"] }
serde_json = "1"
surf = "1.0"
thiserror = "1"
url = "2"
