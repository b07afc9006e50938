[package]
name = "rpi"
version = "0.1.0"
edition = "2021"
publish = false

[dependencies]
serde = { version = "*", features = ["derive"] }
serde_json = "*"
tokio = { version = "*", features = ["rt-multi-thread", "macros", "sync", "net", "time"] }
axum = { version = "*", features = ["ws"] }
futures = "*"
tower-http = { version = "*", features = ["cors"] }
crossbeam = "*"
csv = "*"
