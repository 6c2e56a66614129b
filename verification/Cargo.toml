[package]
name = "tarantas"
version = "0.1.0"
edition = "2021"
publish = false

[dependencies]
postcard = { version = "=1.1.3", features = ["use-std"] }
serde = { version = "=1.0.229", features = ["derive"] }
tokio-util = { version = "=0.7.20", features = ["codec"] }
tokio = { version = "=1.54.1", features = ["full"] }
tokio-serial = { version = "=5.5.0", default-features = false, features = ["codec"] }
crossterm = { version = "=0.28.1", features = ["event-stream"] }
futures = "=0.3.34"
eyre = "=0.6.14"
tracing = "=0.1.44"
tracing-subscriber = "=0.3.23"
embassy-sync = "=0.8.0"
embassy-time = "=0.5.1"
embassy-futures = "=0.1.2"
embedded-hal = "=1.0.0"
embedded-io-async = "=0.7.0"
defmt = "1"
vl53l0x = "*"
