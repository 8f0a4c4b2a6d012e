[package]
name = "web_gateway"
version = "0.1.0"
edition = "2021"
publish = false

[dependencies]
termwiz = "*"
uuid = { version = "1", features = ["v4"] }
axum = { version = "0.8", features = ["ws"] }
tokio = { version = "1", features = ["rt-multi-thread", "sync", "net"] }
futures = "0.3"
log = "0.4"
serde = { version = "1", features = ["derive"] }
serde_json = "1"
include_dir = "0.7"
dialoguer = "*"
miette = "*"
names = { version = "*", default-features = false }
