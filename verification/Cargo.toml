[package]
name = "tmux_gateway_core"
version = "0.1.0"
edition = "2021"
publish = false

[dependencies]
tokio = { version = "1", features = ["rt-multi-thread", "time", "sync", "macros"] }
tmux_interface = "0.3"
serde = { version = "1", features = ["derive"] }
thiserror = "2"
