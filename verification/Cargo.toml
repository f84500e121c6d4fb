[package]
name = "rs_terminal"
version = "0.1.0"
edition = "2021"
publish = false

[dependencies]
portable-pty = "*"
uuid = { version = "*", features = ["v4"] }
tokio = { version = "*", features = ["full"] }
axum = { version = "*", features = ["ws"] }
serde = { version = "*", features = ["derive"] }
serde_json = "*"
toml = "*"
tracing = "*"
tracing-subscriber = { version = "*", features = ["env-filter"] }
anyhow = "*"
clap = { version = "*", features = ["derive"] }
futures-util = "*"
tokio-tungstenite = "*"
reqwest = { version = "*", default-features = false, features = ["json"] }
arboard = { version = "*", default-features = false }
chrono = { version = "*", default-features = false, features = ["clock"] }
