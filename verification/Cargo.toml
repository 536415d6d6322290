[package]
name = "specto"
version = "0.1.0"
edition = "2021"
publish = false

[dependencies]
anyhow = "*"
axum = "*"
clap = { version = "*", features = ["derive"] }
futures-util = "*"
notify = "*"
tokio = { version = "*", features = ["full"] }
tokio-tungstenite = "*"
tower-http = { version = "*", features = ["fs"] }
