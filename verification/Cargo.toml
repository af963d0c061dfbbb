[package]
name = "nep_gw"
version = "0.1.0"
edition = "2021"
publish = false

[dependencies]
prometheus = { version = "0.13", default-features = false }
axum = "0.7"
tokio = { version = "1", features = ["rt-multi-thread", "macros", "net", "sync", "time"] }
reqwest = { version = "0.12", default-features = false }
rumqttc = { version = "0.24", default-features = false }
serde_json = "1"
chrono = "0.4"
tracing = "0.1"
tracing-subscriber = "0.3"

[dev-dependencies]
hex = "0.4"
