[package]
name = "connected_home"
version = "0.1.0"
edition = "2021"
publish = false

[dependencies]
jwt = "0.16"
hmac = "0.12"
sha2 = "0.10"
chrono = "0.4"
rust-argon2 = "2"
rand = "0.8"
url = "2"
rumqttc = { version = "0.20", default-features = false }
serde = { version = "1", features = ["derive"] }
serde_json = "1"
tokio = { version = "1", features = ["full"] }
toml = "0.5"
clap = { version = "4", features = ["derive", "env"] }
http = "0.2"
uuid = { version = "1", features = ["serde", "v4"] }
rust_decimal = "1"
prometheus = "0.13"
axum = "0.6"
async-trait = "0.1"
thiserror = "1"
slog = "2"
