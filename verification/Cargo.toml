[package]
name = "tor_circuits"
version = "0.1.0"
edition = "2021"
publish = false

[dependencies]
hex = "=0.4.3"
anyhow = "=1.0.104"
log = "=0.4.34"
env_logger = { version = "=0.11.11", default-features = false }
futures = "=0.3.34"
tokio = { version = "=1.54.1", features = ["rt-multi-thread", "macros", "time", "io-util", "net"] }
rustls = { version = "=0.21.12", features = ["dangerous_configuration"] }
tokio-rustls = "=0.24.1"

[dev-dependencies]
tor-llcrypto = { version = "*", default-features = false }
tor-netdoc = { version = "*", default-features = false }
