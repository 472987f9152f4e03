[package]
name = "munic_simulator"
version = "0.1.0"
edition = "2021"
publish = false

[dependencies]
base64 = "0.13"
rand = "0.8"
chrono = "0.4"
humantime = "2"
serde = { version = "1", features = ["derive"] }
serde_json = "1"
rocket = { version = "0.5", features = ["json"] }
rocket_dyn_templates = { version = "0.1", features = ["tera"] }
rocket-multipart-form-data = "0.10"
tokio = { version = "1", features = ["full"] }
reqwest = { version = "0.11", features = ["json"] }
futures = "0.3"
dotenvy = "0.15"
log = "0.4"
lazy_static = "1"
atomic-array = "*"
url = "2"
bson = "2"
polyline = "*"
rust_decimal = "1"
