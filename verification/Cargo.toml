[package]
name = "nephila"
version = "0.1.0"
edition = "2021"
publish = false

[dependencies]
blake3 = "*"
chrono = "*"
crossterm = "*"
dashmap = "*"
futures = "*"
nix = { version = "*", features = ["fs"] }
ratatui = "*"
rusqlite = { version = "*", features = ["bundled"] }
serde = { version = "*", features = ["derive"] }
serde_json = "*"
thiserror = "*"
tokio = { version = "*", features = ["full"] }
tracing = "*"
tracing-subscriber = "*"
uuid = { version = "*", features = ["v4"] }
