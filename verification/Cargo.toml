[package]
name = "connect_bridge"
version = "0.1.0"
edition = "2021"
publish = false

[dependencies]
futures = "=0.3.34"
librespot = { version = "=0.4.2", default-features = false }
neon = "=1.1.2"
tokio = { version = "=1.54.1", features = ["rt-multi-thread", "net", "time"] }
