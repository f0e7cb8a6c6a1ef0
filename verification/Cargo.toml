[package]
name = "calendar_settings"
version = "0.1.0"
edition = "2021"
publish = false

[dependencies]
url = "=2.5.8"
openidconnect = { version = "=3.5.0", default-features = false, features = ["reqwest", "rustls-tls"] }
reqwest = { version = "=0.12.28", default-features = false, features = ["rustls-tls"] }
secret-service = { version = "=4.0.0", features = ["rt-tokio-crypto-rust"] }
slab = "=0.4.12"
slotmap = "1"
tokio = { version = "=1.54.1", features = ["rt", "net", "io-util", "time", "macros"] }
tracing = "=0.1.44"
zeroize = "=1.9.1"
