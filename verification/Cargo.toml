[package]
name = "systemd_bridge"
version = "0.1.0"
edition = "2021"
publish = false

[dependencies]
neon = { version = "0.10", default-features = false, features = ["napi-6", "channel-api", "promise-api"] }
once_cell = "1"
tokio = { version = "1", features = ["rt-multi-thread"] }
zbus = { version = "3", default-features = false, features = ["tokio"] }
