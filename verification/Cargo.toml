[package]
name = "binance_client"
version = "0.1.0"
edition = "2021"
publish = false

[dependencies]
chrono = "0.4"
polars = { version = "0.43", default-features = false }
reqwest = { version = "0.11", default-features = false, features = ["json", "rustls-tls"] }
serde = { version = "1", features = ["derive"] }
thiserror = "1"
