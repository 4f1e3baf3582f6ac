[package]
name = "convoy"
version = "0.1.0"
edition = "2021"
publish = false

[dependencies]
rusqlite = { version = "=0.41.1", features = ["bundled", "fallible_uint"] }
chrono = "=0.4.45"
rumqttc = { version = "=0.25.1", default-features = false, features = ["use-native-tls"] }
native-tls = "=0.2.18"
tokio = { version = "=1.54.1", features = ["full"] }
flume = "=0.12.0"
bytes = "=1.12.1"
serde = { version = "=1.0.229", features = ["derive"] }
toml = "=1.1.8"
thiserror = "=2.0.21"
tracing = "=0.1.44"
tracing-subscriber = { version = "=0.3.23", features = ["env-filter"] }
clap = { version = "=4.6.7", features = ["derive"] }
