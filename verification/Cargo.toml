[package]
name = "crabe_async"
version = "0.1.0"
edition = "2021"
publish = false

[dependencies]
futures-util = "0.3"
prost = "0.13"
rand = "0.8"
rrt = "*"
serde = { version = "1", features = ["derive"] }
serde_json = "1"
socket2 = "0.5"
tokio = { version = "1", features = ["full"] }
tokio-tungstenite = "*"
tracing = "0.1"
tracing-subscriber = { version = "0.3", features = ["env-filter"] }
