[package]
name = "iotmq"
version = "0.1.0"
edition = "2021"
publish = false

[dependencies]
anyhow = "1"
async-tungstenite = { version = "*", features = ["tokio-runtime"] }
axum = "*"
bytes = "1"
chrono = "0.4"
clap = { version = "4", features = ["derive"] }
config = { version = "*", default-features = false, features = ["toml"] }
daemonize = "0.5"
futures = "0.3"
nix = { version = "*", features = ["signal", "process"] }
once_cell = "1"
serde = { version = "1", features = ["derive"] }
serde_json = "1"
thiserror = "*"
tokio = { version = "1", features = ["full"] }
tokio-rustls = { version = "*", default-features = false, features = ["ring"] }
tokio-util = { version = "0.7", features = ["codec"] }
tower-http = { version = "*", features = ["fs"] }
tracing = "0.1"
tracing-appender = "0.2"
tracing-subscriber = { version = "0.3", features = ["json"] }
