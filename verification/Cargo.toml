[package]
name = "amp_core"
version = "0.1.0"
edition = "2021"
publish = false

[dependencies]
serialport = { version = "*", default-features = false }
serde = { version = "*", features = ["derive"] }
serde_json = "*"
tokio = { version = "*", features = ["rt-multi-thread", "macros", "sync", "net"] }
axum = { version = "*", features = ["ws"] }
futures = "*"
tower-http = { version = "*", features = ["fs"] }
