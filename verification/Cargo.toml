[package]
name = "quic_echo"
version = "0.1.0"
edition = "2021"
publish = false

[dependencies]
rcgen = "=0.11.3"
quinn = "=0.10.2"
rustls = "=0.21.12"
tokio = { version = "=1.53.2", features = ["macros", "rt-multi-thread", "sync", "time"] }
