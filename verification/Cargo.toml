[package]
name = "nanonet_agent"
version = "0.2.0"
edition = "2021"
publish = false

[dependencies]
serde_json = "*"
serde = { version = "*", features = ["derive"] }
tokio = { version = "*", features = ["rt-multi-thread", "macros", "sync", "time", "signal", "process", "net"] }
reqwest = { version = "*", default-features = false, features = ["json"] }
sysinfo = "*"
clap = { version = "*", features = ["derive", "env"] }
axum = "*"
chrono = "*"
uuid = { version = "*", features = ["v4"] }
tracing = "*"
tracing-subscriber = { version = "*", features = ["env-filter", "json"] }
futures-util = "*"
tokio-tungstenite = "*"
thiserror = "*"
