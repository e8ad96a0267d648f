[package]
name = "dukascopy_fx"
version = "0.1.0"
edition = "2021"
publish = false

[dependencies]
byteorder = "1"
chrono = { version = "0.4", default-features = false, features = ["std", "serde"] }
lru = "0.12"
lzma-rs = "0.3"
reqwest = { version = "0.12", default-features = false, features = ["rustls-tls"] }
rust_decimal = { version = "1", default-features = false, features = ["std", "serde"] }
serde = { version = "1", features = ["derive"] }
thiserror = "1"
tokio = { version = "1", features = ["rt-multi-thread", "sync"] }
