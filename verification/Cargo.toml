[package]
name = "hyperion_framework"
version = "0.5.0"
edition = "2021"
publish = false

[dependencies]
async-trait = "0.1.88"
chrono = "0.4"
colored = "3.0.0"
log = "0.4.27"
serde = { version = "1.0.219", features = ["derive"] }
serde_json = "1.0.142"
serde-xml-rs = "0.8.1"
tokio = { version = "1.47.1", features = ["full"] }
