[package]
name = "caspar_gui"
version = "0.1.0"
edition = "2021"
publish = false

[dependencies]
chrono = "*"
dirs = "*"
serde = { version = "*", features = ["derive"] }
serde_json = "*"
tokio = { version = "*", features = ["rt-multi-thread", "net", "io-util", "sync", "time", "macros"] }
quick-xml = "*"
axum = "*"
tower-http = { version = "*", features = ["fs", "cors"] }
