[package]
name = "simprint-runtime"
version = "0.1.0"
edition = "2021"
publish = false

[dependencies]
bytes = "1"
rand = "0.9"
reqwest = { version = "0.12", default-features = false, features = ["json"] }
serde = { version = "1", features = ["derive"] }
rmp-serde = "1"
serde_json = "1"
tokio = { version = "1", features = ["full"] }
uuid = { version = "1", features = ["v4"] }
which = "*"
log = "0.4"
parking_lot = "0.12"
tracing-subscriber = { version = "0.3", features = ["env-filter"] }
