[package]
name = "mqtt_harness"
version = "0.1.0"
edition = "2021"
publish = false

[dependencies]
anyhow = "=1.0.104"
bytes = "=1.12.1"
config = { version = "=0.15.27", default-features = false, features = ["toml"] }
rumqttc = { version = "=0.25.1", default-features = false }
rumqttd = { version = "=0.20.0", default-features = false }
rust-embed = "=8.13.0"
tracing-subscriber = "=0.3.23"
