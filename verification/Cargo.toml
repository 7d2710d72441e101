[package]
name = "darkroom"
version = "0.1.0"
edition = "2021"
publish = false

[dependencies]
image = { version = "0.25", default-features = false, features = ["png", "jpeg", "webp", "gif", "bmp"] }
url = "2"
serde = { version = "1", features = ["derive"] }
axum = "0.7"
tokio = { version = "1", features = ["full"] }
reqwest = { version = "0.12", default-features = false, features = ["rustls-tls"] }
thiserror = "1"
async-trait = "0.1"
opentelemetry = "0.22"
opentelemetry_sdk = "0.22"
opentelemetry-prometheus = "0.15"
prometheus = "0.13"
env_logger = "0.11"
log = "0.4"
config = { version = "0.14", default-features = false, features = ["toml"] }
humantime-serde = "1"
wgpu = "22"
bytemuck = { version = "1", features = ["derive"] }
