[package]
name = "agent"
version = "0.1.0"
edition = "2021"
publish = false

[dependencies]
aya = "0.12"
reqwest = { version = "0.12", default-features = false, features = ["json"] }
tokio = { version = "1", features = ["rt-multi-thread", "macros", "sync", "time", "signal"] }
serde = { version = "1", features = ["derive"] }
thiserror = "1"
log = "0.4"
env_logger = "0.11"
