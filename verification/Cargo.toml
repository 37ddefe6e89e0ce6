[package]
name = "sonos_state"
version = "0.1.0"
edition = "2021"
publish = false

[dependencies]
url = "=2.5.8"
tracing = "=0.1.44"
tracing-subscriber = { version = "=0.3.23", features = ["env-filter", "fmt"] }
serde = { version = "=1.0.229", features = ["derive"] }
thiserror = "=1.0.69"
parking_lot = "=0.12.5"
tokio = { version = "1", features = ["rt-multi-thread", "sync", "time", "macros"] }
