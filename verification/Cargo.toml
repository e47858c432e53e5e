[package]
name = "ptybridge"
version = "0.1.0"
edition = "2021"
publish = false

[dependencies]
serde_json = "1"
axum = { version = "*", features = ["ws"] }
tokio = { version = "*", features = ["full"] }
futures = "0.3"
portable-pty = "*"
crossbeam-channel = "*"
tower-http = { version = "*", features = ["fs"] }
